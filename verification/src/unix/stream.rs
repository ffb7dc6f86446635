//! Reading from and writing to a Unix domain socket that does not block.
//!
//! A runtime polls an operation, which tries a system call. If that would block, it asks to be told
//! when the socket is ready, and tries again then. [`read`] and [`Write::step`] say what to do at
//! each turn.

use std::mem::MaybeUninit;

use rustix::fd::BorrowedFd;
use rustix::net::SendAncillaryBuffer;
use vstd::prelude::*;
use vstd::slice::slice_subrange;

use crate::error::{Error, ErrorKind, Refusal};
use crate::unix_utils::credentials::PassedCredentials;
use crate::unix_utils::message::{
    message_control, sendmsg, sent_messages, SentMessage, CONTROL_SPACE, MAX_FDS,
};

verus! {

/// A system call that failed with `error`, which is of this kind.
#[derive(Debug)]
pub struct Failure<E> {
    pub kind: ErrorKind,
    pub error: E,
}

/// What has happened to an operation.
#[derive(Debug)]
pub enum IoEvent<T, E> {
    /// The runtime polls it, for the first time or after it was suspended.
    Polled,
    /// The system call has been tried.
    Attempted(Result<T, Failure<E>>),
    /// The socket is not ready; the runtime will poll the operation when it is.
    NotReady,
    /// The socket is ready, or waiting for that failed.
    Ready(Result<(), E>),
}

/// What an operation does next.
#[derive(Debug)]
pub enum IoAction<T, E> {
    /// Try the system call.
    Attempt,
    /// Ask whether the socket is ready.
    AwaitReadiness,
    /// Give way until polled again.
    Suspend,
    /// The operation is over.
    Finish(Result<T, E>),
}

/// What an operation of one system call does next.
pub open spec fn io_action<T, E>(event: IoEvent<T, E>) -> IoAction<T, E> {
    match event {
        IoEvent::Polled => IoAction::Attempt,
        IoEvent::Attempted(Ok(result)) => IoAction::Finish(Ok(result)),
        IoEvent::Attempted(Err(failure)) => if failure.kind == ErrorKind::WouldBlock {
            IoAction::AwaitReadiness
        } else {
            IoAction::Finish(Err(failure.error))
        },
        IoEvent::NotReady => IoAction::Suspend,
        IoEvent::Ready(Ok(())) => IoAction::Attempt,
        IoEvent::Ready(Err(error)) => IoAction::Finish(Err(error)),
    }
}

/// Decides what a read does next. `T` is what one receive gives.
pub fn read<T, E>(event: IoEvent<T, E>) -> (action: IoAction<T, E>)
    ensures
        action == io_action(event),
{
    match event {
        IoEvent::Polled => IoAction::Attempt,
        IoEvent::Attempted(Ok(result)) => IoAction::Finish(Ok(result)),
        IoEvent::Attempted(Err(failure)) => {
            if failure.kind == ErrorKind::WouldBlock {
                IoAction::AwaitReadiness
            } else {
                IoAction::Finish(Err(failure.error))
            }
        },
        IoEvent::NotReady => IoAction::Suspend,
        IoEvent::Ready(Ok(())) => IoAction::Attempt,
        IoEvent::Ready(Err(error)) => IoAction::Finish(Err(error)),
    }
}

/// What a write does next.
#[derive(Debug)]
pub enum WriteAction<E> {
    /// Send the bytes of the message from `from` on, with its credentials, and with its file
    /// descriptors if `with_fds` is set. [`chunk`] is what to send.
    Send { from: usize, with_fds: bool },
    /// Ask whether the socket is ready.
    AwaitReadiness,
    /// Give way until polled again.
    Suspend,
    /// The write is over.
    Finish(Result<(), E>),
}

/// A write of a message, with how far it has come.
#[derive(Debug)]
pub struct Write {
    len: usize,
    pos: usize,
}

/// The mathematical value of a [`Write`].
pub struct WriteState {
    /// The length of the message.
    pub len: nat,
    /// How many of its bytes the socket has taken.
    pub pos: nat,
}

impl View for Write {
    type V = WriteState;

    closed spec fn view(&self) -> WriteState {
        WriteState { len: self.len as nat, pos: self.pos as nat }
    }
}

/// What a write does when it can go on: send what is left, the file descriptors only as long as
/// nothing was taken, or finish when nothing is left.
pub open spec fn next_send<E>(state: WriteState) -> WriteAction<E> {
    if state.pos < state.len {
        WriteAction::Send { from: state.pos as usize, with_fds: state.pos == 0 }
    } else {
        WriteAction::Finish(Ok(()))
    }
}

/// The state of a write after an event: what the socket took is done.
pub open spec fn write_state<E>(state: WriteState, event: IoEvent<usize, E>) -> WriteState {
    match event {
        IoEvent::Attempted(Ok(sent)) => WriteState { len: state.len, pos: state.pos + sent as nat },
        _ => state,
    }
}

/// What a write does after an event.
pub open spec fn write_action<E>(state: WriteState, event: IoEvent<usize, E>) -> WriteAction<E> {
    match io_action(event) {
        IoAction::Attempt => next_send(state),
        IoAction::AwaitReadiness => WriteAction::AwaitReadiness,
        IoAction::Suspend => WriteAction::Suspend,
        IoAction::Finish(Ok(_)) => next_send(write_state(state, event)),
        IoAction::Finish(Err(error)) => WriteAction::Finish(Err(error)),
    }
}

impl Write {
    /// A write of a message of `len` bytes.
    pub fn new(len: usize) -> (write: Self)
        ensures
            write@ == (WriteState { len: len as nat, pos: 0 }),
    {
        Write { len, pos: 0 }
    }

    /// Decides what the write does next.
    pub fn step<E>(&mut self, event: IoEvent<usize, E>) -> (action: WriteAction<E>)
        requires
            event matches IoEvent::Attempted(Ok(sent)) ==> old(self)@.pos + sent <= usize::MAX,
        ensures
            final(self)@ == write_state(old(self)@, event),
            action == write_action(old(self)@, event),
    {
        match read(event) {
            IoAction::Attempt => self.send(),
            IoAction::AwaitReadiness => WriteAction::AwaitReadiness,
            IoAction::Suspend => WriteAction::Suspend,
            IoAction::Finish(Ok(sent)) => {
                self.pos = self.pos + sent;
                self.send()
            },
            IoAction::Finish(Err(error)) => WriteAction::Finish(Err(error)),
        }
    }

    fn send<E>(&self) -> (action: WriteAction<E>)
        ensures
            action == next_send::<E>(self@),
    {
        if self.pos < self.len {
            WriteAction::Send { from: self.pos, with_fds: self.pos == 0 }
        } else {
            WriteAction::Finish(Ok(()))
        }
    }
}

/// What one send of a write hands to the socket.
pub struct Chunk<'a, 'buf, 'slice, 'fd> {
    pub bytes: &'a [u8],
    pub control: SendAncillaryBuffer<'buf, 'slice, 'fd>,
}

/// The mathematical value of a [`Chunk`].
#[verifier::ext_equal]
pub struct ChunkView {
    pub bytes: Seq<u8>,
    pub control: Seq<SentMessage>,
}

impl<'a, 'buf, 'slice, 'fd> View for Chunk<'a, 'buf, 'slice, 'fd> {
    type V = ChunkView;

    open spec fn view(&self) -> ChunkView {
        ChunkView { bytes: self.bytes@, control: sent_messages(self.control) }
    }
}

/// The value of optional credentials.
pub open spec fn creds_view(creds: Option<&PassedCredentials>) -> Option<PassedCredentials> {
    match creds {
        Some(creds) => Some(*creds),
        None => None,
    }
}

/// What a send from `from` on hands to the socket: the rest of the message, the credentials in any
/// case, and the file descriptors if asked for.
pub open spec fn chunk_view(
    message: Seq<u8>,
    fds: Seq<BorrowedFd<'static>>,
    creds: Option<PassedCredentials>,
    from: int,
    with_fds: bool,
) -> ChunkView {
    ChunkView {
        bytes: message.skip(from),
        control: message_control(
            if with_fds {
                fds
            } else {
                Seq::empty()
            },
            creds,
        ),
    }
}

/// Puts together what a [`WriteAction::Send`] with this `from` and `with_fds` is to send.
///
/// More file descriptors than a message carries are refused where they would be sent.
pub fn chunk<'a, 'buf, 'slice, 'fd>(
    cmsg_buf: &'buf mut [MaybeUninit<u8>],
    message: &'a [u8],
    fds: &'slice [BorrowedFd<'fd>],
    creds: Option<&PassedCredentials>,
    from: usize,
    with_fds: bool,
) -> (result: Result<Chunk<'a, 'buf, 'slice, 'fd>, Error>)
    requires
        old(cmsg_buf)@.len() >= CONTROL_SPACE,
        creds matches Some(creds) ==> creds.pid > 0,
        from <= message@.len(),
    ensures
        with_fds && fds@.len() > MAX_FDS ==> result == Err::<
            Chunk<'a, 'buf, 'slice, 'fd>,
            Error,
        >(Error::Refused(Refusal::TooManyFds)),
        !(with_fds && fds@.len() > MAX_FDS) ==> (result matches Ok(chunk) && chunk@ == chunk_view(
            message@,
            fds@,
            creds_view(creds),
            from as int,
            with_fds,
        )),
        result is Ok <==> !with_fds || fds@.len() <= 1024,
        result matches Ok(chunk) ==> chunk.bytes@ == message@.subrange(
            from as int,
            message@.len() as int,
        ),
{
    let sent_fds = if with_fds {
        fds
    } else {
        slice_subrange(fds, 0, 0)
    };
    assert(!with_fds ==> sent_fds@ == Seq::<BorrowedFd<'fd>>::empty());
    match sendmsg(cmsg_buf, sent_fds, creds) {
        Ok(control) => Ok(
            Chunk { bytes: slice_subrange(message, from, message.len()), control },
        ),
        Err(error) => Err(error),
    }
}

/// That an operation would block is never reported; any other failure is, as it is.
pub proof fn law_would_block_is_never_reported<T, E>(failure: Failure<E>, state: WriteState)
    ensures
        io_action(IoEvent::<T, E>::Attempted(Err(failure))) == (if failure.kind
            == ErrorKind::WouldBlock {
            IoAction::<T, E>::AwaitReadiness
        } else {
            IoAction::<T, E>::Finish(Err(failure.error))
        }),
        write_action(state, IoEvent::Attempted(Err(failure))) == (if failure.kind
            == ErrorKind::WouldBlock {
            WriteAction::AwaitReadiness
        } else {
            WriteAction::Finish(Err(failure.error))
        }),
{
}

/// The state of a write of `len` bytes after the events, in order.
pub open spec fn write_run<E>(len: nat, events: Seq<IoEvent<usize, E>>) -> WriteState
    decreases events.len(),
{
    if events.len() == 0 {
        WriteState { len, pos: 0 }
    } else {
        write_state(write_run(len, events.drop_last()), events.last())
    }
}

/// Whether the socket never took more than it was offered.
pub open spec fn takes_what_is_offered<E>(len: nat, events: Seq<IoEvent<usize, E>>) -> bool
    decreases events.len(),
{
    events.len() > 0 ==> {
        &&& takes_what_is_offered(len, events.drop_last())
        &&& events.last() matches IoEvent::Attempted(Ok(sent)) ==> write_run(
            len,
            events.drop_last(),
        ).pos + sent <= len
    }
}

/// The bytes of `message` that the socket took, one send after the other.
pub open spec fn delivered<E>(message: Seq<u8>, events: Seq<IoEvent<usize, E>>) -> Seq<u8>
    decreases events.len(),
{
    if events.len() == 0 {
        Seq::empty()
    } else {
        let pos = write_run(message.len(), events.drop_last()).pos as int;
        delivered(message, events.drop_last()) + (match events.last() {
            IoEvent::Attempted(Ok(sent)) => message.subrange(pos, pos + sent),
            _ => Seq::empty(),
        })
    }
}

/// How many sends that the socket took had the file descriptors with them.
pub open spec fn fds_delivered<E>(len: nat, events: Seq<IoEvent<usize, E>>) -> nat
    decreases events.len(),
{
    if events.len() == 0 {
        0
    } else {
        fds_delivered(len, events.drop_last()) + (if events.last() matches IoEvent::Attempted(Ok(_))
            && write_run(len, events.drop_last()).pos == 0 {
            1nat
        } else {
            0nat
        })
    }
}

/// At every moment, the socket has taken the front of the message: every byte once, in order,
/// however the sends were cut.
pub proof fn law_front_of_message_is_delivered<E>(
    message: Seq<u8>,
    events: Seq<IoEvent<usize, E>>,
)
    requires
        takes_what_is_offered(message.len(), events),
    ensures
        write_run(message.len(), events).len == message.len(),
        write_run(message.len(), events).pos <= message.len(),
        delivered(message, events) == message.take(
            write_run(message.len(), events).pos as int,
        ),
    decreases events.len(),
{
    if events.len() > 0 {
        law_front_of_message_is_delivered(message, events.drop_last());
    }
}

/// A write that reports success after an event has delivered the whole message.
pub proof fn law_finished_write_is_complete<E>(
    message: Seq<u8>,
    events: Seq<IoEvent<usize, E>>,
    event: IoEvent<usize, E>,
)
    requires
        takes_what_is_offered(message.len(), events.push(event)),
        write_action(write_run(message.len(), events), event) matches WriteAction::Finish(Ok(())),
    ensures
        delivered(message, events.push(event)) == message,
{
    assert(events.push(event).drop_last() == events);
    law_front_of_message_is_delivered(message, events.push(event));
    law_front_of_message_is_delivered(message, events);
    assert(message.take(message.len() as int) == message);
}

/// What a write asks to send next is what follows the bytes that were taken, and the file
/// descriptors go with it exactly as long as none were.
pub proof fn law_sends_continue_where_the_last_ended<E>(
    message: Seq<u8>,
    events: Seq<IoEvent<usize, E>>,
    event: IoEvent<usize, E>,
)
    requires
        message.len() <= usize::MAX,
        takes_what_is_offered(message.len(), events.push(event)),
    ensures
        write_action(write_run(message.len(), events), event) matches WriteAction::Send {
            from,
            with_fds,
        } ==> {
            &&& from < message.len()
            &&& delivered(message, events.push(event)) == message.take(from as int)
            &&& with_fds <==> delivered(message, events.push(event)).len() == 0
        },
{
    assert(events.push(event).drop_last() == events);
    law_front_of_message_is_delivered(message, events.push(event));
    law_front_of_message_is_delivered(message, events);
}

/// The file descriptors of a message are delivered once, with its first bytes, provided that a
/// send that goes well takes at least one byte.
pub proof fn law_fds_are_delivered_once<E>(len: nat, events: Seq<IoEvent<usize, E>>)
    requires
        forall|i: int|
            0 <= i < events.len() ==> (#[trigger] events[i] matches IoEvent::Attempted(Ok(sent))
                ==> sent > 0),
    ensures
        fds_delivered(len, events) == (if write_run(len, events).pos > 0 {
            1nat
        } else {
            0nat
        }),
    decreases events.len(),
{
    if events.len() > 0 {
        let before = events.drop_last();
        assert forall|i: int| 0 <= i < before.len() implies (
        #[trigger] before[i] matches IoEvent::Attempted(Ok(sent)) ==> sent > 0) by {
            assert(before[i] == events[i]);
        }
        law_fds_are_delivered_once(len, before);
        assert(events.last() == events[events.len() - 1]);
    }
}

/// What a write of `message` with these file descriptors and credentials hands to the socket, one
/// try after the other, whether the socket took it or not.
pub open spec fn chunks_tried<E>(
    message: Seq<u8>,
    fds: Seq<BorrowedFd<'static>>,
    creds: Option<PassedCredentials>,
    events: Seq<IoEvent<usize, E>>,
) -> Seq<ChunkView>
    decreases events.len(),
{
    if events.len() == 0 {
        Seq::empty()
    } else {
        let before = chunks_tried(message, fds, creds, events.drop_last());
        match (
            events.last(),
            next_send::<E>(write_run(message.len(), events.drop_last())),
        ) {
            (IoEvent::Attempted(_), WriteAction::Send { from, with_fds }) => before.push(
                chunk_view(message, fds, creds, from as int, with_fds),
            ),
            _ => before,
        }
    }
}

/// The credentials of a message go with every chunk of it, behind its file descriptors if those go
/// too; and a message without credentials goes without them throughout.
pub proof fn law_credentials_go_with_every_chunk<E>(
    message: Seq<u8>,
    fds: Seq<BorrowedFd<'static>>,
    creds: Option<PassedCredentials>,
    events: Seq<IoEvent<usize, E>>,
)
    ensures
        forall|i: int|
            0 <= i < chunks_tried(message, fds, creds, events).len() ==> {
                let control = (#[trigger] chunks_tried(message, fds, creds, events)[i]).control;
                &&& control == message_control(fds, creds) || control == message_control(
                    Seq::empty(),
                    creds,
                )
                &&& match creds {
                    Some(creds) => control.len() > 0 && control.last()
                        == SentMessage::Credentials(creds),
                    None => forall|j: int|
                        0 <= j < control.len() ==> (#[trigger] control[j]) is Rights,
                }
            },
    decreases events.len(),
{
    if events.len() > 0 {
        let before = chunks_tried(message, fds, creds, events.drop_last());
        let after = chunks_tried(message, fds, creds, events);
        law_credentials_go_with_every_chunk(message, fds, creds, events.drop_last());
        assert forall|i: int| 0 <= i < after.len() && i < before.len() implies #[trigger] after[i]
            == before[i] by {}
    }
}

/// A chunk that comes after the socket has taken some bytes is the rest of the message with the
/// credentials alone, and one that comes before that is the whole message with all that goes with
/// it. So the file descriptors go with the first chunk that is taken and with no later one.
pub proof fn law_next_chunk<E>(
    message: Seq<u8>,
    fds: Seq<BorrowedFd<'static>>,
    creds: Option<PassedCredentials>,
    events: Seq<IoEvent<usize, E>>,
    outcome: Result<usize, Failure<E>>,
)
    requires
        message.len() <= usize::MAX,
        takes_what_is_offered(message.len(), events),
        delivered(message, events).len() < message.len(),
    ensures
        ({
            let taken = delivered(message, events).len();
            chunks_tried(message, fds, creds, events.push(IoEvent::Attempted(outcome)))
                == chunks_tried(message, fds, creds, events).push(
                chunk_view(message, fds, creds, taken as int, taken == 0),
            )
        }),
{
    law_front_of_message_is_delivered(message, events);
    assert(events.push(IoEvent::Attempted(outcome)).drop_last() == events);
}

/// A write that reports success has sent the message as a whole, provided that a send that goes well
/// takes at least one byte: every byte once and in order, the file descriptors once, with the first
/// bytes, and the credentials with every chunk.
pub proof fn law_write_sends_the_whole_message<E>(
    message: Seq<u8>,
    fds: Seq<BorrowedFd<'static>>,
    creds: PassedCredentials,
    events: Seq<IoEvent<usize, E>>,
    event: IoEvent<usize, E>,
)
    requires
        takes_what_is_offered(message.len(), events.push(event)),
        forall|i: int|
            0 <= i < events.push(event).len() ==> (#[trigger] events.push(
                event,
            )[i] matches IoEvent::Attempted(Ok(sent)) ==> sent > 0),
        write_action(write_run(message.len(), events), event) matches WriteAction::Finish(Ok(())),
    ensures
        delivered(message, events.push(event)) == message,
        fds_delivered(message.len(), events.push(event)) == (if message.len() > 0 {
            1nat
        } else {
            0nat
        }),
        forall|i: int|
            0 <= i < chunks_tried(message, fds, Some(creds), events.push(event)).len() ==> {
                let control = (#[trigger] chunks_tried(
                    message,
                    fds,
                    Some(creds),
                    events.push(event),
                )[i]).control;
                control.len() > 0 && control.last() == SentMessage::Credentials(creds)
            },
{
    law_finished_write_is_complete(message, events, event);
    law_front_of_message_is_delivered(message, events.push(event));
    law_fds_are_delivered_once(message.len(), events.push(event));
    law_credentials_go_with_every_chunk(message, fds, Some(creds), events.push(event));
}

/// A message without bytes is not sent at all, and neither are its file descriptors.
pub proof fn law_empty_message_is_not_sent<E>(
    events: Seq<IoEvent<usize, E>>,
    event: IoEvent<usize, E>,
)
    ensures
        write_action(write_run(0, events), event) !is Send,
{
    lemma_run_keeps_len(0, events);
}

proof fn lemma_run_keeps_len<E>(len: nat, events: Seq<IoEvent<usize, E>>)
    ensures
        write_run(len, events).len == len,
    decreases events.len(),
{
    if events.len() > 0 {
        lemma_run_keeps_len(len, events.drop_last());
    }
}

/// How many bytes the socket took in all.
pub open spec fn bytes_taken<E>(events: Seq<IoEvent<usize, E>>) -> nat
    decreases events.len(),
{
    if events.len() == 0 {
        0
    } else {
        bytes_taken(events.drop_last()) + (match events.last() {
            IoEvent::Attempted(Ok(sent)) => sent as nat,
            _ => 0,
        })
    }
}

/// A write is as far as the bytes that the socket took in all, and its message stays as long as it
/// was.
pub proof fn law_write_is_as_far_as_bytes_were_taken<E>(len: nat, events: Seq<IoEvent<usize, E>>)
    ensures
        write_run(len, events).len == len,
        write_run(len, events).pos == bytes_taken(events),
    decreases events.len(),
{
    if events.len() > 0 {
        law_write_is_as_far_as_bytes_were_taken(len, events.drop_last());
    }
}

/// An operation of one system call tries it when it is polled and whenever the socket gets ready,
/// gives way while the socket is not, and hands on what the call gave or why waiting failed.
pub proof fn law_operation_goes_on_when_it_can<T, E>(result: T, error: E)
    ensures
        io_action(IoEvent::<T, E>::Polled) is Attempt,
        io_action(IoEvent::<T, E>::Ready(Ok(()))) is Attempt,
        io_action(IoEvent::<T, E>::NotReady) is Suspend,
        io_action(IoEvent::<T, E>::Attempted(Ok(result))) == IoAction::<T, E>::Finish(Ok(result)),
        io_action(IoEvent::<T, E>::Ready(Err(error))) == IoAction::<T, E>::Finish(Err(error)),
{
}

/// A write never stops short: polled, told that the socket is ready or that it took some bytes, it
/// sends from the first byte that was not taken, with the file descriptors as long as none was, and
/// finishes when there is no such byte. It gives way only while the socket is not ready, and fails
/// only when a call did.
pub proof fn law_write_goes_on_until_all_is_taken<E>(
    len: nat,
    events: Seq<IoEvent<usize, E>>,
    event: IoEvent<usize, E>,
)
    requires
        len <= usize::MAX,
    ensures
        ({
            let taken = bytes_taken(events.push(event));
            match write_action(write_run(len, events), event) {
                WriteAction::Send { from, with_fds } => {
                    &&& event is Polled || event is Attempted || event is Ready
                    &&& from == taken
                    &&& taken < len
                    &&& with_fds <==> taken == 0
                },
                WriteAction::Finish(Ok(())) => {
                    &&& event is Polled || event is Attempted || event is Ready
                    &&& taken >= len
                },
                WriteAction::Finish(Err(error)) => match event {
                    IoEvent::Attempted(Err(failure)) => failure.error == error && !(failure.kind
                        is WouldBlock),
                    IoEvent::Ready(Err(cause)) => cause == error,
                    _ => false,
                },
                WriteAction::AwaitReadiness => event matches IoEvent::Attempted(Err(failure))
                    && failure.kind is WouldBlock,
                WriteAction::Suspend => event is NotReady,
            }
        }),
        event matches IoEvent::Attempted(Err(_)) ==> !(write_action(write_run(len, events), event)
            is Send),
        event matches IoEvent::Ready(Err(_)) ==> !(write_action(write_run(len, events), event)
            is Send),
{
    assert(events.push(event).drop_last() == events);
    law_write_is_as_far_as_bytes_were_taken(len, events);
}

/// Wherever a message is cut, a send from the cut on hands the socket what is behind the cut, whole
/// and nothing before it. The file descriptors are in front of the credentials if they are asked
/// for and there are any, and the credentials go along if there are any.
pub proof fn law_chunk_is_what_is_behind_the_cut(
    front: Seq<u8>,
    rest: Seq<u8>,
    fds: Seq<BorrowedFd<'static>>,
    creds: Option<PassedCredentials>,
    with_fds: bool,
)
    ensures
        ({
            let chunk = chunk_view(front + rest, fds, creds, front.len() as int, with_fds);
            &&& chunk.bytes == rest
            &&& chunk.control == (match (with_fds && fds.len() > 0, creds) {
                (true, Some(creds)) => seq![
                    SentMessage::Rights(fds),
                    SentMessage::Credentials(creds),
                ],
                (true, None) => seq![SentMessage::Rights(fds)],
                (false, Some(creds)) => seq![SentMessage::Credentials(creds)],
                (false, None) => Seq::empty(),
            })
        }),
{
    assert((front + rest).skip(front.len() as int) =~= rest);
}

/// Whenever a write tries a send, the bytes that were delivered and the bytes that it hands to the
/// socket are together the message: nothing is left out, and nothing is sent again.
pub proof fn law_chunk_completes_the_message<E>(
    message: Seq<u8>,
    fds: Seq<BorrowedFd<'static>>,
    creds: Option<PassedCredentials>,
    events: Seq<IoEvent<usize, E>>,
    outcome: Result<usize, Failure<E>>,
)
    requires
        message.len() <= usize::MAX,
        takes_what_is_offered(message.len(), events),
        bytes_taken(events) < message.len(),
    ensures
        ({
            let before = chunks_tried(message, fds, creds, events);
            let after = chunks_tried(message, fds, creds, events.push(IoEvent::Attempted(outcome)));
            &&& after.len() == before.len() + 1
            &&& delivered(message, events) + after.last().bytes == message
            &&& after.last().bytes == message.subrange(
                bytes_taken(events) as int,
                message.len() as int,
            )
            &&& forall|i: int|
                0 <= i < after.last().control.len() && #[trigger] after.last().control[i] is Rights
                    ==> bytes_taken(events) == 0 && after.last().control[i] == SentMessage::Rights(
                    fds,
                )
            &&& bytes_taken(events) == 0 && fds.len() > 0 ==> after.last().control.len() > 0
                && after.last().control[0] == SentMessage::Rights(fds)
        }),
{
    let taken = bytes_taken(events) as int;
    law_front_of_message_is_delivered(message, events);
    law_write_is_as_far_as_bytes_were_taken(message.len(), events);
    law_next_chunk(message, fds, creds, events, outcome);
    assert(message.take(taken) + message.skip(taken) =~= message);
    law_chunk_is_what_is_behind_the_cut(
        message.take(taken),
        message.skip(taken),
        fds,
        creds,
        taken == 0,
    );
    assert(message.skip(taken) =~= message.subrange(taken, message.len() as int));
}

/// What arrives at the other end: of each chunk that the socket took, the bytes from its front that
/// it took, one after the other.
pub open spec fn arrived<E>(
    message: Seq<u8>,
    fds: Seq<BorrowedFd<'static>>,
    creds: Option<PassedCredentials>,
    events: Seq<IoEvent<usize, E>>,
) -> Seq<u8>
    decreases events.len(),
{
    if events.len() == 0 {
        Seq::empty()
    } else {
        let before = arrived(message, fds, creds, events.drop_last());
        match events.last() {
            IoEvent::Attempted(Ok(sent)) if bytes_taken(events.drop_last()) < message.len() =>
                before + chunks_tried(message, fds, creds, events).last().bytes.take(sent as int),
            _ => before,
        }
    }
}

/// What arrives at the other end is the front of the message, however the sends were cut, and the
/// whole message once the write reports success.
pub proof fn law_message_arrives<E>(
    message: Seq<u8>,
    fds: Seq<BorrowedFd<'static>>,
    creds: Option<PassedCredentials>,
    events: Seq<IoEvent<usize, E>>,
    event: IoEvent<usize, E>,
)
    requires
        message.len() <= usize::MAX,
        takes_what_is_offered(message.len(), events.push(event)),
    ensures
        arrived(message, fds, creds, events.push(event)) == message.subrange(
            0,
            bytes_taken(events.push(event)) as int,
        ),
        write_action(write_run(message.len(), events), event) matches WriteAction::Finish(Ok(()))
            ==> arrived(message, fds, creds, events.push(event)) == message,
{
    lemma_front_arrives(message, fds, creds, events.push(event));
    assert(events.push(event).drop_last() == events);
    law_write_goes_on_until_all_is_taken(message.len(), events, event);
    law_write_is_as_far_as_bytes_were_taken(message.len(), events.push(event));
    law_front_of_message_is_delivered(message, events.push(event));
    assert(message.subrange(0, message.len() as int) =~= message);
}

proof fn lemma_front_arrives<E>(
    message: Seq<u8>,
    fds: Seq<BorrowedFd<'static>>,
    creds: Option<PassedCredentials>,
    events: Seq<IoEvent<usize, E>>,
)
    requires
        message.len() <= usize::MAX,
        takes_what_is_offered(message.len(), events),
    ensures
        arrived(message, fds, creds, events) == message.subrange(0, bytes_taken(events) as int),
    decreases events.len(),
{
    if events.len() > 0 {
        let before = events.drop_last();
        lemma_front_arrives(message, fds, creds, before);
        law_write_is_as_far_as_bytes_were_taken(message.len(), before);
        law_front_of_message_is_delivered(message, before);
        assert(before.push(events.last()) == events);
        if let IoEvent::Attempted(outcome) = events.last() {
            if bytes_taken(before) < message.len() {
                law_chunk_completes_the_message(message, fds, creds, before, outcome);
            }
        }
        assert(arrived(message, fds, creds, events) =~= message.subrange(
            0,
            bytes_taken(events) as int,
        ));
    } else {
        assert(message.subrange(0, 0) =~= Seq::empty());
    }
}

/// The value of a chunk is what it hands to the socket, and the value of credentials that go with a
/// message is those credentials.
pub proof fn law_chunk_is_shown_as_it_is<'a, 'buf, 'slice, 'fd>(
    chunk: Chunk<'a, 'buf, 'slice, 'fd>,
    creds: &'a PassedCredentials,
)
    ensures
        chunk@.bytes == chunk.bytes@,
        chunk@.control == sent_messages(chunk.control),
        creds_view(Some(creds)) == Some(*creds),
        creds_view(None) is None,
{
}

} // verus!

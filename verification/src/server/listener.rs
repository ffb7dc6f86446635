//! Listeners: where a server's connections come from.

use vstd::prelude::*;

use crate::error::Refusal;
use crate::unix_utils::xattr::{XattrStep, XattrStepView};

verus! {

/// What a listener decides apart from how connections arrive.
pub trait Listener {
    /// Decides a request to set an extended attribute on the socket inode this listener is bound
    /// to.
    ///
    /// `supported` is whether the kernel takes attributes on sockets, once that is known. A
    /// listener that is not backed by a socket inode in the file system refuses.
    fn set_xattr<'a>(
        &'a self,
        name: &'a str,
        value: &'a [u8],
        supported: Option<bool>,
    ) -> (step: XattrStep<'a>)
        default_ensures
            step@ == XattrStepView::Refuse(Refusal::NoSocketInode),
    {
        XattrStep::Refuse(Refusal::NoSocketInode)
    }
}

/// What comes of waiting for a connection.
#[derive(Debug, PartialEq, Eq)]
pub enum Accept<Sock> {
    /// A connection over this socket.
    Connection(Sock),
    /// There will be no more connections.
    Closed,
    /// Wait forever.
    Pend,
}

/// Where a [`ReadyListener`] stands.
#[derive(Debug)]
pub enum ReadyListenerState<Sock> {
    /// The socket is still to be handed out.
    Ready(Sock),
    /// The socket has been handed out.
    Handed,
    /// The end has been reported.
    Closed,
}

/// A listener that already has a socket.
///
/// This is useful for services spawned by their supervisor with a connected socket already in
/// hand. A server exits cleanly once the handed-out connection closes.
#[derive(Debug)]
pub struct ReadyListener<Sock> {
    state: ReadyListenerState<Sock>,
}

impl<Sock> View for ReadyListener<Sock> {
    type V = ReadyListenerState<Sock>;

    closed spec fn view(&self) -> ReadyListenerState<Sock> {
        self.state
    }
}

/// What a call of [`ReadyListener::accept`] gives in a state, and the state it leaves.
pub open spec fn ready_accept<Sock>(state: ReadyListenerState<Sock>) -> (
    Accept<Sock>,
    ReadyListenerState<Sock>,
) {
    match state {
        ReadyListenerState::Ready(socket) => (
            Accept::Connection(socket),
            ReadyListenerState::Handed,
        ),
        ReadyListenerState::Handed => (Accept::Closed, ReadyListenerState::Closed),
        ReadyListenerState::Closed => (Accept::Pend, ReadyListenerState::Closed),
    }
}

impl<Sock> ReadyListener<Sock> {
    /// A listener that hands out `socket`.
    pub fn new(socket: Sock) -> (listener: Self)
        ensures
            listener@ == ReadyListenerState::Ready(socket),
    {
        ReadyListener { state: ReadyListenerState::Ready(socket) }
    }

    /// Hands out the socket on the first call, reports the end on the second, and waits forever
    /// after that.
    pub fn accept(&mut self) -> (accept: Accept<Sock>)
        ensures
            (accept, final(self)@) == ready_accept(old(self)@),
    {
        let mut state = ReadyListenerState::Handed;
        core::mem::swap(&mut self.state, &mut state);
        match state {
            ReadyListenerState::Ready(socket) => Accept::Connection(socket),
            ReadyListenerState::Handed => {
                self.state = ReadyListenerState::Closed;
                Accept::Closed
            },
            ReadyListenerState::Closed => {
                self.state = ReadyListenerState::Closed;
                Accept::Pend
            },
        }
    }
}

impl<Sock> Listener for ReadyListener<Sock> {

}

/// The state after `calls` calls of [`ReadyListener::accept`].
pub open spec fn state_after<Sock>(
    state: ReadyListenerState<Sock>,
    calls: nat,
) -> ReadyListenerState<Sock>
    decreases calls,
{
    if calls == 0 {
        state
    } else {
        ready_accept(state_after(state, (calls - 1) as nat)).1
    }
}

/// A ready listener gives its socket on the first call, once. The second call reports the end, and
/// every later one waits forever.
pub proof fn law_ready_listener_gives_one_connection<Sock>(socket: Sock, calls: nat)
    ensures
        ready_accept(state_after(ReadyListenerState::Ready(socket), calls)).0 == (if calls == 0 {
            Accept::Connection(socket)
        } else if calls == 1 {
            Accept::Closed
        } else {
            Accept::Pend
        }),
    decreases calls,
{
    reveal_with_fuel(state_after, 3);
    if calls > 2 {
        law_ready_listener_gives_one_connection(socket, (calls - 1) as nat);
    }
}

/// Once a ready listener has reported the end, it waits forever: whatever its state was, the calls
/// after that report nothing more.
pub proof fn law_closed_stays_closed<Sock>(state: ReadyListenerState<Sock>, calls: nat)
    requires
        ready_accept(state).0 is Closed || ready_accept(state).0 is Pend,
    ensures
        ready_accept(state_after(ready_accept(state).1, calls)).0 is Pend,
    decreases calls,
{
    reveal_with_fuel(state_after, 2);
    if calls > 0 {
        law_closed_stays_closed(state, (calls - 1) as nat);
    }
}

} // verus!

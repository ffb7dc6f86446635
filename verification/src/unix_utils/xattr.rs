//! Extended attributes that mark Varlink sockets.
//!
//! A Varlink socket carries its role in its `user.varlink` attribute, and the socket inode of a
//! service is marked `entrypoint`, so that tools can list them. Not every kernel takes attributes
//! on sockets; [`socket_xattr_supported`] decides how to find out.

use vstd::prelude::*;
use vstd::slice::{slice_subrange, slice_to_vec};
use vstd::utf8::{encode_utf8, is_ascii_chars_encode_utf8};

use crate::error::{Errno, ErrnoName, Error, Refusal};

verus! {

/// The attribute that holds a socket's role or the entrypoint mark.
pub const VARLINK_XATTR: &'static str = "user.varlink";

/// The attribute that is written to find out whether the kernel takes attributes on sockets.
pub const PROBE_XATTR: &'static str = "user.zlink.probe";

/// The role a Unix socket plays in Varlink IPC.
#[derive(Debug, Clone, Copy, PartialEq, Eq, Structural)]
pub enum SocketRole {
    /// A socket created through `socket()` and `connect()`.
    Client,
    /// A socket returned by `accept()`.
    Server,
    /// A socket that `listen()` is called on.
    Listen,
}

impl SocketRole {
    /// The role as the attribute spells it.
    pub open spec fn tag(self) -> Seq<char> {
        match self {
            SocketRole::Client => "client"@,
            SocketRole::Server => "server"@,
            SocketRole::Listen => "listen"@,
        }
    }

    /// The role as the attribute spells it.
    pub fn as_str(self) -> (tag: &'static str)
        ensures
            tag@ == self.tag(),
    {
        match self {
            SocketRole::Client => "client",
            SocketRole::Server => "server",
            SocketRole::Listen => "listen",
        }
    }
}

/// What an attribute is written to.
#[derive(Debug, Clone, Copy)]
pub enum XattrTarget<'a> {
    /// The open socket at hand.
    Socket,
    /// The inode at this path, without following symlinks.
    Inode(&'a [u8]),
}

/// An attribute to write: created if it is not there, and replaced if it is.
#[derive(Debug, Clone, Copy)]
pub struct XattrWrite<'a> {
    pub target: XattrTarget<'a>,
    pub name: &'a str,
    pub value: &'a [u8],
}

/// The mathematical value of [`XattrTarget`].
#[verifier::ext_equal]
pub enum XattrTargetView {
    Socket,
    Inode(Seq<u8>),
}

/// The mathematical value of [`XattrWrite`].
#[verifier::ext_equal]
pub struct XattrWriteView {
    pub target: XattrTargetView,
    pub name: Seq<char>,
    pub value: Seq<u8>,
}

impl<'a> View for XattrTarget<'a> {
    type V = XattrTargetView;

    open spec fn view(&self) -> XattrTargetView {
        match self {
            XattrTarget::Socket => XattrTargetView::Socket,
            XattrTarget::Inode(path) => XattrTargetView::Inode(path@),
        }
    }
}

impl<'a> View for XattrWrite<'a> {
    type V = XattrWriteView;

    open spec fn view(&self) -> XattrWriteView {
        XattrWriteView { target: self.target@, name: self.name@, value: self.value@ }
    }
}

/// A step towards knowing whether the kernel takes attributes on sockets.
#[derive(Debug, Clone, Copy)]
pub enum ProbeEvent {
    /// What an earlier probe found, if one did.
    Cached(Option<bool>),
    /// How creating a socket to probe with went.
    SocketCreated(Result<(), Errno>),
    /// How writing the probe attribute to that socket went.
    Written(Result<(), Errno>),
}

/// What to do next to know whether the kernel takes attributes on sockets.
#[derive(Debug, Clone, Copy)]
pub enum ProbeAction<'a> {
    /// Create a Unix datagram socket to probe with.
    CreateSocket,
    /// Write this attribute to it.
    Write(XattrWrite<'a>),
    /// The probe is over. What it found holds for the life of the process if `remember` is set.
    Answer { supported: bool, remember: bool },
}

/// The mathematical value of [`ProbeAction`].
#[verifier::ext_equal]
pub enum ProbeActionView {
    CreateSocket,
    Write(XattrWriteView),
    Answer { supported: bool, remember: bool },
}

impl<'a> View for ProbeAction<'a> {
    type V = ProbeActionView;

    open spec fn view(&self) -> ProbeActionView {
        match self {
            ProbeAction::CreateSocket => ProbeActionView::CreateSocket,
            ProbeAction::Write(write) => ProbeActionView::Write(write@),
            ProbeAction::Answer { supported, remember } => ProbeActionView::Answer {
                supported: *supported,
                remember: *remember,
            },
        }
    }
}

/// Whether this error says that the kernel takes no attributes on sockets, and not just that
/// something went wrong this once.
pub open spec fn means_unsupported(errno: Errno) -> bool {
    errno.name == ErrnoName::Perm || errno.name == ErrnoName::OpNotSupp || errno.name
        == ErrnoName::NoSys
}

/// The attribute that a probe writes.
pub open spec fn probe_write() -> XattrWriteView {
    XattrWriteView {
        target: XattrTargetView::Socket,
        name: PROBE_XATTR@,
        value: encode_utf8("1"@),
    }
}

/// What a probe does next.
pub open spec fn probe_action(event: ProbeEvent) -> ProbeActionView {
    match event {
        ProbeEvent::Cached(Some(supported)) => ProbeActionView::Answer {
            supported,
            remember: false,
        },
        ProbeEvent::Cached(None) => ProbeActionView::CreateSocket,
        ProbeEvent::SocketCreated(Ok(())) => ProbeActionView::Write(probe_write()),
        ProbeEvent::SocketCreated(Err(_)) => ProbeActionView::Answer {
            supported: false,
            remember: false,
        },
        ProbeEvent::Written(Ok(())) => ProbeActionView::Answer { supported: true, remember: true },
        ProbeEvent::Written(Err(errno)) => ProbeActionView::Answer {
            supported: false,
            remember: means_unsupported(errno),
        },
    }
}

/// Decides, step by step, whether the kernel takes `user.*` attributes on socket inodes.
///
/// It starts with what is remembered. A verdict is to be remembered; a failure to probe is not,
/// and counts as a no for now.
pub fn socket_xattr_supported(event: ProbeEvent) -> (action: ProbeAction<'static>)
    ensures
        action@ == probe_action(event),
{
    match event {
        ProbeEvent::Cached(Some(supported)) => ProbeAction::Answer { supported, remember: false },
        ProbeEvent::Cached(None) => ProbeAction::CreateSocket,
        ProbeEvent::SocketCreated(Ok(())) => ProbeAction::Write(
            XattrWrite { target: XattrTarget::Socket, name: PROBE_XATTR, value: "1".as_bytes() },
        ),
        ProbeEvent::SocketCreated(Err(_)) => ProbeAction::Answer {
            supported: false,
            remember: false,
        },
        ProbeEvent::Written(Ok(())) => ProbeAction::Answer { supported: true, remember: true },
        ProbeEvent::Written(Err(errno)) => ProbeAction::Answer {
            supported: false,
            remember: match errno.name {
                ErrnoName::Perm | ErrnoName::OpNotSupp | ErrnoName::NoSys => true,
                _ => false,
            },
        },
    }
}

/// The write that tags a socket with its role.
pub open spec fn role_write(role: SocketRole) -> XattrWriteView {
    XattrWriteView {
        target: XattrTargetView::Socket,
        name: VARLINK_XATTR@,
        value: encode_utf8(role.tag()),
    }
}

/// The attribute to write to a socket in order to tag it with its role, if the kernel takes any.
///
/// Tagging is best effort: nothing depends on how the write goes.
pub fn tag_socket(supported: bool, role: SocketRole) -> (write: Option<XattrWrite<'static>>)
    ensures
        supported ==> (write matches Some(write) && write@ == role_write(role)),
        !supported ==> write is None,
{
    if !supported {
        return None;
    }
    Some(
        XattrWrite {
            target: XattrTarget::Socket,
            name: VARLINK_XATTR,
            value: role.as_str().as_bytes(),
        },
    )
}

/// Whether a path begins at the root directory.
pub open spec fn is_absolute_path(path: Seq<u8>) -> bool {
    path.len() > 0 && path[0] == 0x2f
}

/// Whether a path begins at the root directory, and so means the same inode from every working
/// directory.
pub fn is_absolute(path: &[u8]) -> (absolute: bool)
    ensures
        absolute == is_absolute_path(path@),
{
    path.len() > 0 && path[0] == 0x2f
}

/// The write that marks a socket inode as an entrypoint.
pub open spec fn entrypoint_write(path: Seq<u8>) -> XattrWriteView {
    XattrWriteView {
        target: XattrTargetView::Inode(path),
        name: VARLINK_XATTR@,
        value: encode_utf8("entrypoint"@),
    }
}

/// The value of an optional path.
pub open spec fn path_view(path: Option<&[u8]>) -> Option<Seq<u8>> {
    match path {
        Some(path) => Some(path@),
        None => None,
    }
}

/// The values of attribute writes.
pub open spec fn write_views<'a>(writes: Seq<XattrWrite<'a>>) -> Seq<XattrWriteView> {
    writes.map_values(|write: XattrWrite<'a>| write@)
}

/// The writes that tag a listening socket and, where it is known by an absolute path, its inode.
pub open spec fn listener_writes(supported: bool, path: Option<Seq<u8>>) -> Seq<XattrWriteView> {
    if !supported {
        Seq::empty()
    } else {
        match path {
            Some(path) if is_absolute_path(path) => seq![
                role_write(SocketRole::Listen),
                entrypoint_write(path),
            ],
            _ => seq![role_write(SocketRole::Listen)],
        }
    }
}

/// The attributes to write, in order, for a listening socket: `listen` to the socket and, when
/// `path` is an absolute path, `entrypoint` to the inode there.
///
/// `path` must be the very path that was handed to `bind()`. A relative path is not used, since
/// the working directory may have changed. Listeners adopted from a file descriptor have none.
pub fn tag_listener<'a>(supported: bool, path: Option<&'a [u8]>) -> (writes: Vec<XattrWrite<'a>>)
    ensures
        write_views(writes@) == listener_writes(supported, path_view(path)),
{
    let mut writes: Vec<XattrWrite<'a>> = Vec::new();
    if let Some(write) = tag_socket(supported, SocketRole::Listen) {
        writes.push(write);
        if let Some(path) = path {
            if is_absolute(path) {
                writes.push(
                    XattrWrite {
                        target: XattrTarget::Inode(path),
                        name: VARLINK_XATTR,
                        value: "entrypoint".as_bytes(),
                    },
                );
            }
        }
    }
    writes
}

/// What comes of a request to set an attribute on a listener's socket inode.
#[derive(Debug, Clone, Copy)]
pub enum XattrStep<'a> {
    /// The request is refused.
    Refuse(Refusal),
    /// Find out whether the kernel takes attributes on sockets, and make the request again.
    Probe,
    /// Write this attribute; how that goes is the result of the request.
    Write(XattrWrite<'a>),
}

/// The mathematical value of [`XattrStep`].
#[verifier::ext_equal]
pub enum XattrStepView {
    Refuse(Refusal),
    Probe,
    Write(XattrWriteView),
}

impl<'a> View for XattrStep<'a> {
    type V = XattrStepView;

    open spec fn view(&self) -> XattrStepView {
        match self {
            XattrStep::Refuse(refusal) => XattrStepView::Refuse(*refusal),
            XattrStep::Probe => XattrStepView::Probe,
            XattrStep::Write(write) => XattrStepView::Write(write@),
        }
    }
}

/// What comes of a request to set the attribute `name` on the inode at `path`.
pub open spec fn entrypoint_step(
    path: Seq<u8>,
    name: Seq<char>,
    value: Seq<u8>,
    supported: Option<bool>,
) -> XattrStepView {
    if !is_absolute_path(path) {
        XattrStepView::Refuse(Refusal::EntrypointUnknown)
    } else {
        match supported {
            None => XattrStepView::Probe,
            Some(false) => XattrStepView::Refuse(Refusal::XattrsUnsupported),
            Some(true) => XattrStepView::Write(
                XattrWriteView { target: XattrTargetView::Inode(path), name, value },
            ),
        }
    }
}

/// Decides a request to set an extended attribute on the entrypoint socket inode at `path`, the
/// path that was handed to `bind()`.
///
/// `supported` is whether the kernel takes attributes on sockets, once that is known. It is not
/// asked for when the path is refused anyway.
pub fn set_entrypoint_xattr<'a>(
    path: &'a [u8],
    name: &'a str,
    value: &'a [u8],
    supported: Option<bool>,
) -> (step: XattrStep<'a>)
    ensures
        step@ == entrypoint_step(path@, name@, value@, supported),
{
    if !is_absolute(path) {
        return XattrStep::Refuse(Refusal::EntrypointUnknown);
    }
    match supported {
        None => XattrStep::Probe,
        Some(false) => XattrStep::Refuse(Refusal::XattrsUnsupported),
        Some(true) => XattrStep::Write(
            XattrWrite { target: XattrTarget::Inode(path), name, value },
        ),
    }
}

/// The size of the buffer that attributes are read into; enough for the values written here.
pub const XATTR_BUFFER_SIZE: usize = 32;

/// Whether `read` is a result that reading into `buf` can have.
pub open spec fn is_read_into(buf: Seq<u8>, read: Result<usize, Errno>) -> bool {
    read matches Ok(len) ==> len <= buf.len()
}

/// The front of `buf`, as long as what was read, or the error if nothing was.
pub open spec fn read_value(buf: Seq<u8>, read: Result<usize, Errno>) -> Result<Seq<u8>, Error> {
    match read {
        Ok(len) => Ok(buf.take(len as int)),
        Err(errno) => Err(Error::Os(errno)),
    }
}

/// The value of what reading an attribute gave.
pub open spec fn value_view(value: Result<Vec<u8>, Error>) -> Result<Seq<u8>, Error> {
    match value {
        Ok(value) => Ok(value@),
        Err(error) => Err(error),
    }
}

/// The front of `buf`, as long as what was read, or the error if nothing was.
fn xattr_value(buf: &[u8], read: Result<usize, Errno>) -> (value: Result<Vec<u8>, Error>)
    requires
        is_read_into(buf@, read),
    ensures
        value_view(value) == read_value(buf@, read),
{
    match read {
        Ok(len) => Ok(slice_to_vec(slice_subrange(buf, 0, len))),
        Err(errno) => Err(Error::Os(errno)),
    }
}

/// The value of an extended attribute of an open file descriptor that was read into `buf`.
pub fn read_fxattr(buf: &[u8], read: Result<usize, Errno>) -> (value: Result<Vec<u8>, Error>)
    requires
        is_read_into(buf@, read),
    ensures
        value_view(value) == read_value(buf@, read),
{
    xattr_value(buf, read)
}

/// The value of an extended attribute of an inode, without following symlinks, that was read into
/// `buf`.
pub fn read_lxattr(buf: &[u8], read: Result<usize, Errno>) -> (value: Result<Vec<u8>, Error>)
    requires
        is_read_into(buf@, read),
    ensures
        value_view(value) == read_value(buf@, read),
{
    xattr_value(buf, read)
}

/// A relative path is never used: the listener it was bound to is tagged as one without a path,
/// and a request to set an attribute is refused, whatever the kernel supports.
pub proof fn law_relative_path_is_never_used(
    path: Seq<u8>,
    name: Seq<char>,
    value: Seq<u8>,
    tagging: bool,
    supported: Option<bool>,
)
    requires
        !is_absolute_path(path),
    ensures
        listener_writes(tagging, Some(path)) == listener_writes(tagging, None),
        entrypoint_step(path, name, value, supported) == XattrStepView::Refuse(
            Refusal::EntrypointUnknown,
        ),
{
}

/// The only inode ever written to is the one at the path that was handed to `bind()`, and only
/// where that path is absolute and the kernel takes attributes on sockets.
pub proof fn law_only_the_bound_inode_is_written(
    path: Seq<u8>,
    name: Seq<char>,
    value: Seq<u8>,
    tagging: bool,
    supported: Option<bool>,
    inode: Seq<u8>,
)
    ensures
        forall|i: int|
            0 <= i < listener_writes(tagging, Some(path)).len() && (
            #[trigger] listener_writes(tagging, Some(path))[i]).target == XattrTargetView::Inode(
                inode,
            ) ==> inode == path && is_absolute_path(path) && tagging,
        forall|i: int|
            0 <= i < listener_writes(tagging, None).len() ==> (
            #[trigger] listener_writes(tagging, None)[i]).target is Socket,
        entrypoint_step(path, name, value, supported) matches XattrStepView::Write(write)
            ==> write.target == XattrTargetView::Inode(path) && is_absolute_path(path) && supported
            == Some(true) && write.name == name && write.value == value,
{
}

/// Where the kernel takes no attributes on sockets, none is written.
pub proof fn law_nothing_is_written_without_support(
    path: Option<Seq<u8>>,
    entrypoint: Seq<u8>,
    name: Seq<char>,
    value: Seq<u8>,
)
    ensures
        listener_writes(false, path) == Seq::<XattrWriteView>::empty(),
        entrypoint_step(entrypoint, name, value, Some(false)) is Refuse,
{
}

/// The bytes of the four values that `user.varlink` takes are told apart, and each fits the buffer
/// that attributes are read into.
pub proof fn law_tags_are_told_apart(role: SocketRole, other: SocketRole)
    ensures
        encode_utf8(role.tag()) == encode_utf8(other.tag()) ==> role == other,
        encode_utf8(role.tag()) != encode_utf8("entrypoint"@),
        encode_utf8(role.tag()).len() <= XATTR_BUFFER_SIZE,
        encode_utf8("entrypoint"@).len() <= XATTR_BUFFER_SIZE,
{
    reveal_strlit("client");
    reveal_strlit("server");
    reveal_strlit("listen");
    reveal_strlit("entrypoint");
    is_ascii_chars_encode_utf8("entrypoint"@);
    is_ascii_chars_encode_utf8(role.tag());
    is_ascii_chars_encode_utf8(other.tag());
    assert(role.tag()[0] as u8 == encode_utf8(role.tag())[0]);
    assert(other.tag()[0] as u8 == encode_utf8(other.tag())[0]);
}

/// A probe from its start: what it answers, and what is remembered after it. `cache` is what was
/// remembered before, and the rest is how the two system calls go, if it comes to them.
pub open spec fn probe(
    cache: Option<bool>,
    socket: Result<(), Errno>,
    written: Result<(), Errno>,
) -> (bool, Option<bool>) {
    let started = probe_action(ProbeEvent::Cached(cache));
    let created = if started is CreateSocket {
        probe_action(ProbeEvent::SocketCreated(socket))
    } else {
        started
    };
    let answered = if created is Write {
        probe_action(ProbeEvent::Written(written))
    } else {
        created
    };
    (
        answered->supported,
        if answered->remember {
            Some(answered->supported)
        } else {
            cache
        },
    )
}

/// What is remembered after one probe after another.
pub open spec fn probe_cache(
    cache: Option<bool>,
    outcomes: Seq<(Result<(), Errno>, Result<(), Errno>)>,
) -> Option<bool>
    decreases outcomes.len(),
{
    if outcomes.len() == 0 {
        cache
    } else {
        probe(probe_cache(cache, outcomes.drop_last()), outcomes.last().0, outcomes.last().1).1
    }
}

/// A verdict holds for the life of the process: however many probes follow, and whatever the
/// kernel would have replied, they answer the same.
pub proof fn law_verdict_is_final(
    verdict: bool,
    outcomes: Seq<(Result<(), Errno>, Result<(), Errno>)>,
    socket: Result<(), Errno>,
    written: Result<(), Errno>,
)
    ensures
        probe_cache(Some(verdict), outcomes) == Some(verdict),
        probe(probe_cache(Some(verdict), outcomes), socket, written) == (verdict, Some(verdict)),
    decreases outcomes.len(),
{
    if outcomes.len() > 0 {
        law_verdict_is_final(
            verdict,
            outcomes.drop_last(),
            outcomes.last().0,
            outcomes.last().1,
        );
    }
}

/// A first probe says yes exactly when the probe attribute could be written, and remembers that.
/// A no is remembered when the kernel refused the attribute, and forgotten when the probe itself
/// failed.
pub proof fn law_first_probe(socket: Result<(), Errno>, written: Result<(), Errno>)
    ensures
        probe(None, socket, written).0 <==> socket is Ok && written is Ok,
        probe(None, socket, written).0 ==> probe(None, socket, written).1 == Some(true),
        probe(None, socket, written) == (false, Some(false)) <==> socket is Ok && (
        written matches Err(errno) && means_unsupported(errno)),
        socket is Err ==> probe(None, socket, written) == (false, None::<bool>),
        socket is Ok && (written matches Err(errno) && !means_unsupported(errno)) ==> probe(
            None,
            socket,
            written,
        ) == (false, None::<bool>),
{
}

/// The attributes that are kept, of the open socket at hand and of inodes.
pub type XattrStore = Map<(XattrTargetView, Seq<char>), Seq<u8>>;

/// What is kept after an attribute has been written.
pub open spec fn written(store: XattrStore, write: XattrWriteView) -> XattrStore {
    store.insert((write.target, write.name), write.value)
}

/// What is kept after attributes have been written, one after the other.
pub open spec fn all_written(store: XattrStore, writes: Seq<XattrWriteView>) -> XattrStore
    decreases writes.len(),
{
    if writes.len() == 0 {
        store
    } else {
        written(all_written(store, writes.drop_last()), writes.last())
    }
}

/// Whether reading the attribute `name` of `target` into a buffer gives `buf` and `read`, where
/// `store` is what is kept: all of the value, if there is one and it fits, and else an error.
pub open spec fn is_read_from(
    store: XattrStore,
    target: XattrTargetView,
    name: Seq<char>,
    buf: Seq<u8>,
    read: Result<usize, Errno>,
) -> bool {
    let key = (target, name);
    if store.dom().contains(key) && store[key].len() <= buf.len() {
        read matches Ok(len) && len == store[key].len() && buf.take(len as int) == store[key]
    } else {
        read is Err
    }
}

/// The writes that come after one leave its attribute alone, unless they are to the same.
pub proof fn law_other_attributes_are_kept(
    store: XattrStore,
    target: XattrTargetView,
    name: Seq<char>,
    since: Seq<XattrWriteView>,
)
    requires
        forall|i: int|
            0 <= i < since.len() ==> (#[trigger] since[i]).target != target || since[i].name
                != name,
    ensures
        all_written(store, since).dom().contains((target, name)) == store.dom().contains(
            (target, name),
        ),
        all_written(store, since)[(target, name)] == store[(target, name)],
    decreases since.len(),
{
    if since.len() > 0 {
        let front = since.drop_last();
        assert forall|i: int| 0 <= i < front.len() implies (#[trigger] front[i]).target != target
            || front[i].name != name by {
            assert(front[i] == since[i]);
        }
        law_other_attributes_are_kept(store, target, name, front);
        assert(since.last() == since[since.len() - 1]);
    }
}

/// A new tag replaces the old one, whatever the socket carried before, and to tag a socket twice
/// with one role is the same as once.
pub proof fn law_new_tag_replaces_the_old(store: XattrStore, first: SocketRole, second: SocketRole)
    ensures
        ({
            let tagged = written(written(store, role_write(first)), role_write(second));
            &&& tagged.dom().contains((XattrTargetView::Socket, VARLINK_XATTR@))
            &&& tagged[(XattrTargetView::Socket, VARLINK_XATTR@)] == encode_utf8(second.tag())
            &&& tagged == written(store, role_write(second))
        }),
        written(written(store, role_write(first)), role_write(first)) == written(
            store,
            role_write(first),
        ),
{
    assert(written(written(store, role_write(first)), role_write(second)) =~= written(
        store,
        role_write(second),
    ));
    assert(written(written(store, role_write(first)), role_write(first)) =~= written(
        store,
        role_write(first),
    ));
}

/// The role that a socket was tagged with is what reading its `user.varlink` attribute gives, and
/// what a listener's inode was marked with is read back too.
pub proof fn law_tags_are_read_back(
    store: XattrStore,
    role: SocketRole,
    path: Seq<u8>,
    buf: Seq<u8>,
    read: Result<usize, Errno>,
)
    requires
        buf.len() == XATTR_BUFFER_SIZE,
    ensures
        is_read_from(
            written(store, role_write(role)),
            XattrTargetView::Socket,
            VARLINK_XATTR@,
            buf,
            read,
        ) ==> read_value(buf, read) == Ok::<Seq<u8>, Error>(encode_utf8(role.tag())),
        is_absolute_path(path) && is_read_from(
            all_written(store, listener_writes(true, Some(path))),
            XattrTargetView::Socket,
            VARLINK_XATTR@,
            buf,
            read,
        ) ==> read_value(buf, read) == Ok::<Seq<u8>, Error>(
            encode_utf8(SocketRole::Listen.tag()),
        ),
        is_absolute_path(path) && is_read_from(
            all_written(store, listener_writes(true, Some(path))),
            XattrTargetView::Inode(path),
            VARLINK_XATTR@,
            buf,
            read,
        ) ==> read_value(buf, read) == Ok::<Seq<u8>, Error>(encode_utf8("entrypoint"@)),
{
    law_tags_are_told_apart(role, role);
    law_tags_are_told_apart(SocketRole::Listen, role);
    if is_absolute_path(path) {
        reveal_with_fuel(all_written, 3);
        let writes = listener_writes(true, Some(path));
        assert(writes.drop_last() == seq![role_write(SocketRole::Listen)]);
        assert(writes.drop_last().drop_last().len() == 0);
    }
}

/// What was set on an entrypoint is what a read gives back, whatever the attribute held before, as
/// long as it has not been written since and its value fits the buffer that it is read into.
pub proof fn law_entrypoint_xattr_is_read_back(
    store: XattrStore,
    path: Seq<u8>,
    name: Seq<char>,
    value: Seq<u8>,
    since: Seq<XattrWriteView>,
    buf: Seq<u8>,
    read: Result<usize, Errno>,
)
    requires
        is_absolute_path(path),
        value.len() <= XATTR_BUFFER_SIZE,
        buf.len() == XATTR_BUFFER_SIZE,
        forall|i: int|
            0 <= i < since.len() ==> (#[trigger] since[i]).target != XattrTargetView::Inode(path)
                || since[i].name != name,
    ensures
        entrypoint_step(path, name, value, Some(true)) matches XattrStepView::Write(write) && (
        is_read_from(
            all_written(written(store, write), since),
            XattrTargetView::Inode(path),
            name,
            buf,
            read,
        ) ==> read_value(buf, read) == Ok::<Seq<u8>, Error>(value)),
{
    let write = entrypoint_step(path, name, value, Some(true))->Write_0;
    law_other_attributes_are_kept(
        written(store, write),
        XattrTargetView::Inode(path),
        name,
        since,
    );
}

/// A path is absolute exactly when it begins with a slash, whatever follows, and an empty path is
/// not.
pub proof fn law_absolute_paths_begin_with_a_slash(first: u8, rest: Seq<u8>)
    ensures
        is_absolute_path(seq![first] + rest) <==> first == '/' as u8,
        !is_absolute_path(Seq::empty()),
{
}

/// A role is written to the socket, to `user.varlink`, in its own letters.
pub proof fn law_role_is_written_in_letters(role: SocketRole)
    ensures
        role_write(role).target is Socket,
        role_write(role).name == "user.varlink"@,
        role_write(role).value == (match role {
            SocketRole::Client => encode_utf8("client"@),
            SocketRole::Server => encode_utf8("server"@),
            SocketRole::Listen => encode_utf8("listen"@),
        }),
{
}

/// Where the kernel takes attributes on sockets, a listening socket carries `listen` once its tags
/// are written, whatever path it is known by, if any, and whatever it carried before; and the inode
/// at a path carries `entrypoint` if it begins with a slash, and is left as it was if not.
pub proof fn law_listener_is_tagged(
    store: XattrStore,
    path: Option<Seq<u8>>,
    other: (XattrTargetView, Seq<char>),
)
    ensures
        ({
            let tagged = all_written(store, listener_writes(true, path));
            let socket = (XattrTargetView::Socket, "user.varlink"@);
            &&& tagged.dom().contains(socket)
            &&& tagged[socket] == encode_utf8("listen"@)
            &&& path matches Some(path) ==> {
                let inode = (XattrTargetView::Inode(path), "user.varlink"@);
                if path.len() > 0 && path[0] == '/' as u8 {
                    &&& tagged.dom().contains(inode)
                    &&& tagged[inode] == encode_utf8("entrypoint"@)
                } else {
                    &&& tagged.dom().contains(inode) == store.dom().contains(inode)
                    &&& tagged[inode] == store[inode]
                }
            }
            &&& other != socket && !(path matches Some(path) && other == (
                XattrTargetView::Inode(path),
                "user.varlink"@,
            )) ==> {
                &&& tagged.dom().contains(other) == store.dom().contains(other)
                &&& tagged[other] == store[other]
            }
        }),
        all_written(store, listener_writes(false, path)) == store,
{
    reveal_with_fuel(all_written, 3);
    let writes = listener_writes(true, path);
    if writes.len() == 2 {
        assert(writes.drop_last() == seq![role_write(SocketRole::Listen)]);
        assert(writes.drop_last().drop_last().len() == 0);
    } else {
        assert(writes == seq![role_write(SocketRole::Listen)]);
        assert(writes.drop_last().len() == 0);
    }
}

/// The socket is tagged first and its inode after it, and no attribute is written twice.
pub proof fn law_listener_tags_are_few(path: Option<Seq<u8>>)
    ensures
        ({
            let writes = listener_writes(true, path);
            &&& writes.len() == (if path is Some && path->Some_0.len() > 0 && path->Some_0[0]
                == '/' as u8 {
                2int
            } else {
                1
            })
            &&& writes[0].target is Socket
            &&& writes.len() == 2 ==> writes[1].target == XattrTargetView::Inode(path->Some_0)
        }),
{
}

/// A request to set an attribute on the inode at a path is decided by three things alone, and never
/// by the name, the value or their lengths. A path that does not begin with a slash is refused as
/// unknown. Otherwise the kernel is probed if it was not, the request is refused as unsupported if
/// the kernel takes no attributes on sockets, and if it does, the attribute is written: that name,
/// that value, to the inode at that path.
pub proof fn law_entrypoint_request_is_carried_out(
    path: Seq<u8>,
    name: Seq<char>,
    value: Seq<u8>,
    supported: Option<bool>,
)
    ensures
        ({
            let located = path.len() > 0 && path[0] == '/' as u8;
            match entrypoint_step(path, name, value, supported) {
                XattrStepView::Refuse(refusal) => {
                    ||| !located && refusal is EntrypointUnknown
                    ||| located && supported == Some(false) && refusal is XattrsUnsupported
                },
                XattrStepView::Probe => located && supported is None,
                XattrStepView::Write(write) => {
                    &&& located
                    &&& supported == Some(true)
                    &&& write.target == XattrTargetView::Inode(path)
                    &&& write.name == name
                    &&& write.value == value
                },
            }
        }),
{
}

/// Two requests that differ in the name and the value alone are both written, or both refused for
/// the same reason, or both left for the probe.
pub proof fn law_entrypoint_requests_are_treated_alike(
    path: Seq<u8>,
    name: Seq<char>,
    value: Seq<u8>,
    other_name: Seq<char>,
    other_value: Seq<u8>,
    supported: Option<bool>,
)
    ensures
        match (
            entrypoint_step(path, name, value, supported),
            entrypoint_step(path, other_name, other_value, supported),
        ) {
            (XattrStepView::Write(one), XattrStepView::Write(other)) => one.target == other.target,
            (XattrStepView::Refuse(one), XattrStepView::Refuse(other)) => one == other,
            (XattrStepView::Probe, XattrStepView::Probe) => true,
            _ => false,
        },
{
}

/// A probe begins with what is remembered, and answers that. Only if nothing is, it creates a
/// socket. Only if it has one, it writes the attribute `user.zlink.probe` with the value `1` to it.
/// In every other case it answers.
pub proof fn law_probe_goes_step_by_step(event: ProbeEvent)
    ensures
        match probe_action(event) {
            ProbeActionView::CreateSocket => event matches ProbeEvent::Cached(None),
            ProbeActionView::Write(write) => {
                &&& event matches ProbeEvent::SocketCreated(Ok(()))
                &&& write.target is Socket
                &&& write.name == "user.zlink.probe"@
                &&& write.value == encode_utf8("1"@)
            },
            ProbeActionView::Answer { supported, remember } => match event {
                ProbeEvent::Cached(cached) => cached == Some(supported) && !remember,
                ProbeEvent::SocketCreated(created) => created is Err && !supported && !remember,
                ProbeEvent::Written(written) => {
                    &&& supported <==> written is Ok
                    &&& remember <==> (written is Ok || written->Err_0.name is Perm
                        || written->Err_0.name is OpNotSupp || written->Err_0.name is NoSys)
                },
            },
        },
{
}

/// What is read of an attribute is as many bytes as the kernel says, each from its place in the
/// buffer, and a failure to read is reported as it is.
pub proof fn law_value_is_read_byte_by_byte(buf: Seq<u8>, read: Result<usize, Errno>)
    requires
        read matches Ok(len) ==> len <= buf.len(),
    ensures
        is_read_into(buf, read),
        match read_value(buf, read) {
            Ok(value) => {
                &&& read is Ok
                &&& value.len() == read->Ok_0
                &&& forall|i: int| 0 <= i < value.len() ==> #[trigger] value[i] == buf[i]
            },
            Err(error) => read is Err && error == Error::Os(read->Err_0),
        },
{
}

/// The value of a write, of what comes of a request and of what a probe does is that very thing,
/// with the target, the name and the value of the attribute as they are.
pub proof fn law_writes_are_shown_as_they_are<'a>(
    write: XattrWrite<'a>,
    step: XattrStep<'a>,
    action: ProbeAction<'a>,
    writes: Seq<XattrWrite<'a>>,
    i: int,
    path: Option<&'a [u8]>,
    value: Result<Vec<u8>, Error>,
)
    requires
        0 <= i < writes.len(),
    ensures
        write@.name == write.name@,
        write@.value == write.value@,
        match write.target {
            XattrTarget::Socket => write@.target is Socket,
            XattrTarget::Inode(path) => write@.target == XattrTargetView::Inode(path@),
        },
        match step {
            XattrStep::Refuse(refusal) => step@ == XattrStepView::Refuse(refusal),
            XattrStep::Probe => step@ is Probe,
            XattrStep::Write(write) => step@ == XattrStepView::Write(write@),
        },
        match action {
            ProbeAction::CreateSocket => action@ is CreateSocket,
            ProbeAction::Write(write) => action@ == ProbeActionView::Write(write@),
            ProbeAction::Answer { supported, remember } => action@ == (ProbeActionView::Answer {
                supported,
                remember,
            }),
        },
        write_views(writes).len() == writes.len(),
        write_views(writes)[i] == writes[i]@,
        match path {
            Some(path) => path_view(Some(path)) == Some(path@),
            None => path_view(None) is None,
        },
        match value {
            Ok(value) => value_view(Ok(value)) == Ok::<Seq<u8>, Error>(value@),
            Err(error) => value_view(Err(error)) == Err::<Seq<u8>, Error>(error),
        },
{
}

} // verus!

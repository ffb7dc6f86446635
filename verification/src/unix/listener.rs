//! Unix domain socket listeners.

use vstd::prelude::*;
use vstd::slice::slice_to_vec;

use crate::error::{ErrorKind, Refusal};
use crate::platform::Platform;
use crate::server;
use crate::unix_utils::xattr::{
    entrypoint_step, is_absolute_path, listener_writes, set_entrypoint_xattr, tag_listener, write_views, XattrStep,
    XattrStepView, XattrTargetView, XattrWrite,
};

verus! {

/// A Unix domain socket listener, over a runtime's own listener `L`.
///
/// Listeners are tagged `listen`, and the socket inode at an absolute path that was bound to
/// `entrypoint`. Listeners adopted from a file descriptor or bound to a relative path only get the
/// `listen` tag, since the inode they were bound to cannot be located safely.
#[derive(Debug)]
pub struct Listener<L> {
    listener: L,
    path: Option<Vec<u8>>,
}

impl<L> Listener<L> {
    /// The runtime's listener.
    pub closed spec fn inner(&self) -> L {
        self.listener
    }

    /// The path that was handed to `bind()`, if this listener came from there.
    pub closed spec fn bound_path(&self) -> Option<Seq<u8>> {
        match self.path {
            Some(path) => Some(path@),
            None => None,
        }
    }

    /// Wraps a bound listener. `path` is the path that was handed to `bind()`; a listener adopted
    /// from a file descriptor has none.
    pub fn new(listener: L, path: Option<Vec<u8>>) -> (result: Self)
        ensures
            result.inner() == listener,
            result.bound_path() == (match path {
                Some(path) => Some(path@),
                None => None,
            }),
    {
        Listener { listener, path }
    }

    /// The runtime's listener.
    pub fn get_ref(&self) -> (listener: &L)
        ensures
            *listener == self.inner(),
    {
        &self.listener
    }

    /// The attributes to write, in order, to tag the listener and its entrypoint inode. Only on
    /// Linux are there any.
    pub fn tags(&self, platform: Platform, supported: bool) -> (writes: Vec<XattrWrite<'_>>)
        ensures
            write_views(writes@) == (if platform == Platform::Linux {
                listener_writes(supported, self.bound_path())
            } else {
                Seq::empty()
            }),
    {
        if platform != Platform::Linux {
            return Vec::new();
        }
        match &self.path {
            Some(path) => tag_listener(supported, Some(path.as_slice())),
            None => tag_listener(supported, None),
        }
    }
}

/// The listener that comes of binding to `path`, where `bound` is what the runtime made of it.
///
/// The path is kept as it is: it is what the entrypoint inode is known by from now on.
pub fn bind<L, E>(path: &[u8], bound: Result<L, E>) -> (result: Result<Listener<L>, E>)
    ensures
        bound matches Ok(listener) ==> (result matches Ok(result) && result.inner() == listener
            && result.bound_path() == Some(path@)),
        bound matches Err(error) ==> result == Err::<Listener<L>, E>(error),
{
    match bound {
        Ok(listener) => Ok(Listener::new(listener, Some(slice_to_vec(path)))),
        Err(error) => Err(error),
    }
}

/// What comes of a request to set an attribute on a listener that was bound to `path`, or adopted
/// where that is `None`.
pub open spec fn listener_step(
    path: Option<Seq<u8>>,
    name: Seq<char>,
    value: Seq<u8>,
    supported: Option<bool>,
) -> XattrStepView {
    match path {
        Some(path) => entrypoint_step(path, name, value, supported),
        None => XattrStepView::Refuse(Refusal::AdoptedEntrypointUnknown),
    }
}

impl<L> server::listener::Listener for Listener<L> {
    fn set_xattr<'a>(
        &'a self,
        name: &'a str,
        value: &'a [u8],
        supported: Option<bool>,
    ) -> (step: XattrStep<'a>)
        ensures
            step@ == listener_step(self.bound_path(), name@, value@, supported),
    {
        match &self.path {
            Some(path) => set_entrypoint_xattr(path.as_slice(), name, value, supported),
            None => XattrStep::Refuse(Refusal::AdoptedEntrypointUnknown),
        }
    }
}

/// A request to set an attribute goes to the inode exactly where its path is known and absolute and
/// the kernel takes attributes on sockets. It is refused as invalid input where the path is not
/// known, because the listener was adopted, or is relative, and as unsupported where the kernel
/// does not take them.
pub proof fn law_set_xattr_outcomes(
    path: Option<Seq<u8>>,
    name: Seq<char>,
    value: Seq<u8>,
    supported: bool,
)
    ensures
        ({
            let located = path matches Some(path) && is_absolute_path(path);
            match listener_step(path, name, value, Some(supported)) {
                XattrStepView::Write(_) => located && supported,
                XattrStepView::Refuse(refusal) => {
                    &&& refusal.kind_of() is InvalidInput <==> !located
                    &&& refusal.kind_of() is Unsupported <==> located && !supported
                },
                XattrStepView::Probe => false,
            }
        }),
        Refusal::NoSocketInode.kind_of() == ErrorKind::Unsupported,
{
}

/// An adopted listener is tagged on its socket alone, and takes no attribute on its inode, whatever
/// the kernel supports.
pub proof fn law_adopted_listener_has_no_inode(
    name: Seq<char>,
    value: Seq<u8>,
    tagging: bool,
    supported: Option<bool>,
)
    ensures
        forall|i: int|
            0 <= i < listener_writes(tagging, None).len() ==> (
            #[trigger] listener_writes(tagging, None)[i]).target is Socket,
        listener_step(None, name, value, supported) == XattrStepView::Refuse(
            Refusal::AdoptedEntrypointUnknown,
        ),
{
}

/// A request on a listener is carried out exactly where the listener was bound to a path that begins
/// with a slash and the kernel takes attributes on sockets: that value goes to that name of the inode
/// at that path, however long they are. Each other case has its own refusal, and the kernel is
/// probed only for a listener whose inode is known.
pub proof fn law_listener_request_is_carried_out(
    path: Option<Seq<u8>>,
    name: Seq<char>,
    value: Seq<u8>,
    supported: Option<bool>,
)
    ensures
        ({
            let located = path matches Some(path) && path.len() > 0 && path[0] == '/' as u8;
            match listener_step(path, name, value, supported) {
                XattrStepView::Write(write) => {
                    &&& located
                    &&& supported == Some(true)
                    &&& write.target == XattrTargetView::Inode(path->Some_0)
                    &&& write.name == name
                    &&& write.value == value
                },
                XattrStepView::Probe => located && supported is None,
                XattrStepView::Refuse(refusal) => {
                    ||| path is None && refusal is AdoptedEntrypointUnknown
                    ||| path is Some && !located && refusal is EntrypointUnknown
                    ||| located && supported == Some(false) && refusal is XattrsUnsupported
                },
            }
        }),
{
}

} // verus!

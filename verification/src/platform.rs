//! The platforms that sockets differ on.

use vstd::prelude::*;

verus! {

/// The platforms, by how they tell a peer's credentials.
///
/// Linux alone takes extended attributes on sockets, and on Linux alone credentials are passed with
/// messages.
#[derive(Debug, Clone, Copy, PartialEq, Eq, Structural)]
pub enum Platform {
    /// Linux: `SO_PEERCRED`, `SO_PEERGROUPS` and `SO_PEERPIDFD`.
    Linux,
    /// Android: `SO_PEERCRED`.
    Android,
    /// macOS and iOS: `getpeereid()` and `LOCAL_PEERPID`.
    Apple,
    /// OpenBSD: `getpeereid()` and `SO_PEERCRED` for the process ID.
    OpenBsd,
    /// NetBSD: `getpeereid()` and `LOCAL_PEEREID` for the process ID.
    NetBsd,
    /// FreeBSD and DragonFly: `getpeereid()`; the process ID is 0.
    FreeBsd,
    /// Anything else: no way to tell.
    Other,
}

} // verus!

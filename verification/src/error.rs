//! Errors: numbers from the operating system, and refusals of the library's own.

use vstd::prelude::*;

verus! {

/// The error numbers that some decision of the library looks at.
#[derive(Debug, Clone, Copy, PartialEq, Eq, Structural)]
pub enum ErrnoName {
    /// `EPERM`.
    Perm,
    /// `EOPNOTSUPP`.
    OpNotSupp,
    /// `ENOSYS`.
    NoSys,
    /// `ERANGE`.
    Range,
    /// `ENOPROTOOPT`.
    NoProtoOpt,
    /// Any other number.
    Other,
}

/// An operating system error: its number, and what the number means here.
#[derive(Debug, Clone, Copy, PartialEq, Eq, Structural)]
pub struct Errno {
    pub raw: i32,
    pub name: ErrnoName,
}

/// The numbers behind [`ErrnoName`] on the running machine.
#[derive(Debug, Clone, Copy, PartialEq, Eq, Structural)]
pub struct ErrnoNumbers {
    pub perm: i32,
    pub op_not_supp: i32,
    pub no_sys: i32,
    pub range: i32,
    pub no_proto_opt: i32,
}

impl ErrnoNumbers {
    /// Whether these are the numbers of some Linux architecture.
    ///
    /// `EPERM` and `ERANGE` have one number everywhere. The other three come in three sets: one
    /// for most architectures, one for MIPS and one for SPARC.
    pub open spec fn is_linux(self) -> bool {
        &&& self.perm == 1
        &&& self.range == 34
        &&& {
            ||| self.no_sys == 38 && self.op_not_supp == 95 && self.no_proto_opt == 92
            ||| self.no_sys == 89 && self.op_not_supp == 122 && self.no_proto_opt == 99
            ||| self.no_sys == 90 && self.op_not_supp == 45 && self.no_proto_opt == 42
        }
    }
}

/// The error numbers of the running machine: `Errno::PERM`, `Errno::OPNOTSUPP` and
/// `Errno::NOSYS` of `rustix`, read with its `Errno::raw_os_error`, and `ERANGE` and
/// `ENOPROTOOPT` of `libc`.
///
/// Claimed: they are the numbers that one of the Linux architectures uses. Which one depends on
/// the machine and is left unsaid.
#[verifier::external_body]
fn errno_numbers() -> (numbers: ErrnoNumbers)
    ensures
        numbers.is_linux(),
{
    ErrnoNumbers {
        perm: rustix::io::Errno::PERM.raw_os_error(),
        op_not_supp: rustix::io::Errno::OPNOTSUPP.raw_os_error(),
        no_sys: rustix::io::Errno::NOSYS.raw_os_error(),
        range: libc::ERANGE,
        no_proto_opt: libc::ENOPROTOOPT,
    }
}

/// What the error number `raw` means where the machine's numbers are `numbers`.
pub open spec fn errno_name(raw: i32, numbers: ErrnoNumbers) -> ErrnoName {
    if raw == numbers.perm {
        ErrnoName::Perm
    } else if raw == numbers.op_not_supp {
        ErrnoName::OpNotSupp
    } else if raw == numbers.no_sys {
        ErrnoName::NoSys
    } else if raw == numbers.range {
        ErrnoName::Range
    } else if raw == numbers.no_proto_opt {
        ErrnoName::NoProtoOpt
    } else {
        ErrnoName::Other
    }
}

impl Errno {
    /// The error with number `raw`, on a machine with these numbers.
    pub fn with_numbers(raw: i32, numbers: &ErrnoNumbers) -> (errno: Errno)
        ensures
            errno == (Errno { raw, name: errno_name(raw, *numbers) }),
            errno.raw == raw,
    {
        let name = if raw == numbers.perm {
            ErrnoName::Perm
        } else if raw == numbers.op_not_supp {
            ErrnoName::OpNotSupp
        } else if raw == numbers.no_sys {
            ErrnoName::NoSys
        } else if raw == numbers.range {
            ErrnoName::Range
        } else if raw == numbers.no_proto_opt {
            ErrnoName::NoProtoOpt
        } else {
            ErrnoName::Other
        };
        Errno { raw, name }
    }

    /// The error with number `raw`, on the running machine.
    ///
    /// The meaning of a number is the one that some Linux architecture gives it: in particular,
    /// that of `EPERM` and `ERANGE` is the same everywhere.
    pub fn from_raw_os_error(raw: i32) -> (errno: Errno)
        ensures
            exists|numbers: ErrnoNumbers| #[trigger]
                numbers.is_linux() && errno == (Errno { raw, name: errno_name(raw, numbers) }),
            raw == 1 <==> errno.name is Perm,
            raw == 34 <==> errno.name is Range,
    {
        let numbers = errno_numbers();
        Errno::with_numbers(raw, &numbers)
    }
}

/// The kinds of I/O error that some decision of the library makes or looks at.
#[derive(Debug, Clone, Copy, PartialEq, Eq, Structural)]
pub enum ErrorKind {
    /// The operation would have to block.
    WouldBlock,
    /// A parameter was incorrect.
    InvalidInput,
    /// Data was not valid for the operation.
    InvalidData,
    /// The operation is not supported here.
    Unsupported,
    /// Any other kind.
    Other,
}

/// Why the library refuses a request without asking the operating system.
#[derive(Debug, Clone, Copy, PartialEq, Eq, Structural)]
pub enum Refusal {
    /// The listener is not backed by a socket inode.
    NoSocketInode,
    /// The listener was bound to a relative path.
    EntrypointUnknown,
    /// The listener was adopted from a file descriptor.
    AdoptedEntrypointUnknown,
    /// The kernel does not take extended attributes on socket inodes.
    XattrsUnsupported,
    /// More file descriptors than one message carries.
    TooManyFds,
    /// The credentials did not fit the ancillary data of the message.
    CredentialsNotPushed,
    /// The peer's process ID is not one.
    InvalidPeerPid,
    /// The platform has no way to ask for peer credentials.
    PeerCredentialsUnsupported,
}

impl Refusal {
    /// The kind of error that a refusal is.
    pub open spec fn kind_of(self) -> ErrorKind {
        match self {
            Refusal::NoSocketInode => ErrorKind::Unsupported,
            Refusal::XattrsUnsupported => ErrorKind::Unsupported,
            Refusal::PeerCredentialsUnsupported => ErrorKind::Unsupported,
            Refusal::EntrypointUnknown => ErrorKind::InvalidInput,
            Refusal::AdoptedEntrypointUnknown => ErrorKind::InvalidInput,
            Refusal::TooManyFds => ErrorKind::InvalidInput,
            Refusal::CredentialsNotPushed => ErrorKind::InvalidInput,
            Refusal::InvalidPeerPid => ErrorKind::InvalidData,
        }
    }

    /// The kind of error to report.
    pub fn kind(self) -> (kind: ErrorKind)
        ensures
            kind == self.kind_of(),
    {
        match self {
            Refusal::NoSocketInode => ErrorKind::Unsupported,
            Refusal::XattrsUnsupported => ErrorKind::Unsupported,
            Refusal::PeerCredentialsUnsupported => ErrorKind::Unsupported,
            Refusal::EntrypointUnknown => ErrorKind::InvalidInput,
            Refusal::AdoptedEntrypointUnknown => ErrorKind::InvalidInput,
            Refusal::TooManyFds => ErrorKind::InvalidInput,
            Refusal::CredentialsNotPushed => ErrorKind::InvalidInput,
            Refusal::InvalidPeerPid => ErrorKind::InvalidData,
        }
    }

    /// The text that explains a refusal.
    pub open spec fn text(self) -> Seq<char> {
        match self {
            Refusal::NoSocketInode =>
                "listener is not backed by a socket inode in the file system"@,
            Refusal::EntrypointUnknown => "the entrypoint inode of this listener is not known"@,
            Refusal::AdoptedEntrypointUnknown =>
                "the entrypoint inode of a listener adopted from a file descriptor is not known"@,
            Refusal::XattrsUnsupported =>
                "the kernel does not support extended attributes on socket inodes"@,
            Refusal::TooManyFds => "too many file descriptors to send"@,
            Refusal::CredentialsNotPushed => "failed to push credentials"@,
            Refusal::InvalidPeerPid => "invalid peer PID"@,
            Refusal::PeerCredentialsUnsupported =>
                "peer credentials not supported on this platform"@,
        }
    }

    /// The message to report.
    pub fn message(self) -> (message: &'static str)
        ensures
            message@ == self.text(),
    {
        match self {
            Refusal::NoSocketInode => "listener is not backed by a socket inode in the file system",
            Refusal::EntrypointUnknown => "the entrypoint inode of this listener is not known",
            Refusal::AdoptedEntrypointUnknown =>
                "the entrypoint inode of a listener adopted from a file descriptor is not known",
            Refusal::XattrsUnsupported =>
                "the kernel does not support extended attributes on socket inodes",
            Refusal::TooManyFds => "too many file descriptors to send",
            Refusal::CredentialsNotPushed => "failed to push credentials",
            Refusal::InvalidPeerPid => "invalid peer PID",
            Refusal::PeerCredentialsUnsupported =>
                "peer credentials not supported on this platform",
        }
    }
}

/// What went wrong.
#[derive(Debug, Clone, Copy, PartialEq, Eq, Structural)]
pub enum Error {
    /// The library refused.
    Refused(Refusal),
    /// The operating system did.
    Os(Errno),
}

/// On every Linux architecture, the five numbers that have a meaning here are different from each
/// other and from zero, so that no failure is taken for another.
pub proof fn law_error_numbers_are_distinct(numbers: ErrnoNumbers)
    requires
        numbers.is_linux(),
    ensures
        ({
            let all = seq![
                numbers.perm,
                numbers.op_not_supp,
                numbers.no_sys,
                numbers.range,
                numbers.no_proto_opt,
            ];
            &&& all.no_duplicates()
            &&& forall|i: int| 0 <= i < all.len() ==> #[trigger] all[i] > 0
        }),
{
}

/// Where no two of the five numbers are equal, an error has one of the five names exactly when its
/// number is the one behind that name, and none of them exactly when its number is none of the five.
pub proof fn law_error_is_named_by_its_number(raw: i32, numbers: ErrnoNumbers)
    requires
        seq![
            numbers.perm,
            numbers.op_not_supp,
            numbers.no_sys,
            numbers.range,
            numbers.no_proto_opt,
        ].no_duplicates(),
    ensures
        errno_name(raw, numbers) is Perm <==> raw == numbers.perm,
        errno_name(raw, numbers) is OpNotSupp <==> raw == numbers.op_not_supp,
        errno_name(raw, numbers) is NoSys <==> raw == numbers.no_sys,
        errno_name(raw, numbers) is Range <==> raw == numbers.range,
        errno_name(raw, numbers) is NoProtoOpt <==> raw == numbers.no_proto_opt,
        errno_name(raw, numbers) is Other <==> !seq![
            numbers.perm,
            numbers.op_not_supp,
            numbers.no_sys,
            numbers.range,
            numbers.no_proto_opt,
        ].contains(raw),
{
    let all = seq![
        numbers.perm,
        numbers.op_not_supp,
        numbers.no_sys,
        numbers.range,
        numbers.no_proto_opt,
    ];
    assert(all[0] == numbers.perm);
    assert(all[1] == numbers.op_not_supp);
    assert(all[2] == numbers.no_sys);
    assert(all[3] == numbers.range);
    assert(all[4] == numbers.no_proto_opt);
}

/// What a caller got wrong is invalid input, what the system cannot do is unsupported, and what the
/// system told wrong is invalid data.
pub proof fn law_kinds_of_refusals(refusal: Refusal)
    ensures
        refusal.kind_of() is Unsupported <==> (refusal is NoSocketInode || refusal
            is XattrsUnsupported || refusal is PeerCredentialsUnsupported),
        refusal.kind_of() is InvalidInput <==> (refusal is EntrypointUnknown || refusal
            is AdoptedEntrypointUnknown || refusal is TooManyFds || refusal
            is CredentialsNotPushed),
        refusal.kind_of() is InvalidData <==> refusal is InvalidPeerPid,
{
}

} // verus!

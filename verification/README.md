# zlink_unix

Varlink IPC over Unix domain sockets: passing file descriptors and credentials, finding out who the
peer is, and marking sockets with extended attributes so that tools recognise them.

`src/` holds the decisions, verified with Verus. It makes no system call. Each decision is a function
or a small state machine over plain values, with a contract that says exactly what comes out:

- `unix_utils::message`: the ancillary data of a message, put together and taken apart.
- `unix_utils::credentials`: the questions to the kernel that lead to a peer's credentials.
- `unix_utils::xattr`: the roles of sockets, the attributes to write, and the probe for support.
- `unix::stream`: what a read or a write on a non-blocking socket does next, and what it sends.
- `unix::setup`: the steps that make a socket ready.
- `unix::listener`, `server::listener`: listeners, and what they answer to attribute requests.
- `error`, `platform`: error numbers, refusals, and the platforms that sockets differ on.

What holds of several functions together is stated as proof functions named `law_*`. What is believed
of `rustix` and `libc` without proof is said above each item marked `external_body`, and is said of
them on Linux.

`app/` holds the system calls and the futures, for the tokio and smol runtimes. `tests/` runs the
library, against real sockets where it matters.

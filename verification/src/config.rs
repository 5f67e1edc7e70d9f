//! Listener tuning: the kernel-level options the listening socket is built
//! with before it is handed to the HTTP layer. Address and port reuse for
//! rapid restart and load distribution, no-delay so small responses are sent
//! promptly, non-blocking mode, buffers of megabytes for bursty traffic, and
//! an accept backlog of thousands so connection bursts are not refused.
//!
//! The socket itself is created, configured, bound and listened on outside
//! the library; it reads these values and applies them in order, failing the
//! whole startup on the first step that errs.

use vstd::prelude::*;

verus! {

/// The receive-buffer size the listening socket asks for, in bytes.
pub const RECV_BUFFER_BYTES: usize = 4 * 1024 * 1024;

/// The send-buffer size the listening socket asks for, in bytes.
pub const SEND_BUFFER_BYTES: usize = 4 * 1024 * 1024;

/// How many fully-formed incoming connections may wait to be accepted.
pub const ACCEPT_BACKLOG: i32 = 4096;

/// The port served when the operator supplies none.
pub const DEFAULT_PORT: u16 = 3000;

/// How many worker threads the serving loop runs on.
pub const WORKER_THREADS: usize = 8;

/// How many entries the store is pre-sized for at process start.
pub const STORE_CAPACITY_HINT: usize = 1_000_000;

/// Everything the listening socket is configured with. The bind address is
/// always wildcard IPv4 together with the port.
pub struct ListenerConfig {
    pub reuse_address: bool,
    pub reuse_port: bool,
    pub nodelay: bool,
    pub nonblocking: bool,
    pub recv_buffer_bytes: usize,
    pub send_buffer_bytes: usize,
    pub backlog: i32,
    pub port: u16,
}

/// The one listener configuration this system serves with: every reuse and
/// no-delay option on, non-blocking, megabyte buffers, a deep backlog, and
/// the operator's port.
pub fn listener_config(port: u16) -> (c: ListenerConfig)
    ensures
        c.reuse_address,
        c.reuse_port,
        c.nodelay,
        c.nonblocking,
        c.recv_buffer_bytes == RECV_BUFFER_BYTES,
        c.send_buffer_bytes == SEND_BUFFER_BYTES,
        c.backlog == ACCEPT_BACKLOG,
        c.port == port,
{
    ListenerConfig {
        reuse_address: true,
        reuse_port: true,
        nodelay: true,
        nonblocking: true,
        recv_buffer_bytes: RECV_BUFFER_BYTES,
        send_buffer_bytes: SEND_BUFFER_BYTES,
        backlog: ACCEPT_BACKLOG,
        port,
    }
}

} // verus!

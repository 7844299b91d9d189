use vstd::prelude::*;
use vstd::string::StringExecFns;

use crate::error::SocketError;
use crate::paths::bind_path_spec;
use crate::paths::build_paths;
use crate::paths::lock_path_spec;

verus! {

/// An owned file descriptor (rustix re-exports std's), carried opaquely;
/// closing it is what releases an advisory lock held through it.
#[verifier::external_type_specification]
#[verifier::external_body]
pub struct ExOwnedFd(rustix::fd::OwnedFd);

/// Relies on rustix::fs::openat with CREATE | WRONLY and owner read/write
/// permission bits: opens the file at `path`, creating it if missing, and
/// returns the descriptor that owns it; every failure is reported as an
/// error, never by panicking.
#[verifier::external_body]
fn open_lock_file(path: &String) -> (r: Result<rustix::fd::OwnedFd, SocketError>)
    ensures
        r matches Err(e) ==> e == SocketError::LockOpen,
{
    match rustix::fs::openat(
        rustix::fs::CWD,
        path.as_str(),
        rustix::fs::OFlags::CREATE | rustix::fs::OFlags::WRONLY,
        rustix::fs::Mode::RUSR | rustix::fs::Mode::WUSR,
    ) {
        Ok(fd) => Ok(fd),
        Err(_) => Err(SocketError::LockOpen),
    }
}

/// Relies on rustix::fs::flock with NonBlockingLockExclusive: takes the
/// exclusive advisory lock on the open file without ever blocking, and
/// fails immediately when another holder has it. The lock stays held until
/// the descriptor is closed.
#[verifier::external_body]
fn try_lock_exclusive(fd: &rustix::fd::OwnedFd) -> (r: Result<(), SocketError>)
    ensures
        r matches Err(e) ==> e == SocketError::LockAcquire,
{
    match rustix::fs::flock(fd, rustix::fs::FlockOperation::NonBlockingLockExclusive) {
        Ok(()) => Ok(()),
        Err(_) => Err(SocketError::LockAcquire),
    }
}

/// Relies on rustix::fs::unlink: removes the file at `path`, best-effort;
/// failure (a missing file among other causes) is deliberately ignored, and
/// the call never panics.
#[verifier::external_body]
fn remove_file(path: &String)
    opens_invariants none
    no_unwind
{
    let _ = rustix::fs::unlink(path.as_str());
}

/// Relies on rustix::net::socket_with: creates a Unix-domain stream socket,
/// non-blocking and close-on-exec (as an async runtime will want it); every
/// failure is an error, never a panic.
#[verifier::external_body]
fn create_socket() -> (r: Result<rustix::fd::OwnedFd, SocketError>)
    ensures
        r matches Err(e) ==> e == SocketError::Bind,
{
    match rustix::net::socket_with(
        rustix::net::AddressFamily::UNIX,
        rustix::net::SocketType::STREAM,
        rustix::net::SocketFlags::NONBLOCK | rustix::net::SocketFlags::CLOEXEC,
        None,
    ) {
        Ok(fd) => Ok(fd),
        Err(_) => Err(SocketError::Bind),
    }
}

/// Relies on rustix::net::bind with a rustix::net::SocketAddrUnix made from
/// `path`: binds the socket to that filesystem address. A path too long for
/// a socket address is an error from the address constructor; nothing here
/// panics.
#[verifier::external_body]
fn bind_socket(fd: &rustix::fd::OwnedFd, path: &String) -> (r: Result<(), SocketError>)
    ensures
        r matches Err(e) ==> e == SocketError::Bind,
{
    let addr = match rustix::net::SocketAddrUnix::new(path.as_str()) {
        Ok(addr) => addr,
        Err(_) => return Err(SocketError::Bind),
    };
    match rustix::net::bind(fd, &addr) {
        Ok(()) => Ok(()),
        Err(_) => Err(SocketError::Bind),
    }
}

/// Relies on rustix::net::listen: starts listening on the bound socket,
/// with the generous backlog async runtimes commonly pick; every failure
/// is an error, never a panic.
#[verifier::external_body]
fn listen_socket(fd: &rustix::fd::OwnedFd) -> (r: Result<(), SocketError>)
    ensures
        r matches Err(e) ==> e == SocketError::Bind,
{
    match rustix::net::listen(fd, 1024) {
        Ok(()) => Ok(()),
        Err(_) => Err(SocketError::Bind),
    }
}

/// Creates the listening endpoint at `path`: a fresh non-blocking socket,
/// bound to the path, then set listening. Any step's failure is the bind
/// error; a descriptor from a failed attempt is dropped, closing it.
fn bind_listener(path: &String) -> (r: Result<rustix::fd::OwnedFd, SocketError>)
    ensures
        r matches Err(e) ==> e == SocketError::Bind,
{
    let fd = match create_socket() {
        Ok(fd) => fd,
        Err(e) => {
            return Err(e);
        },
    };
    match bind_socket(&fd, path) {
        Ok(()) => {},
        Err(e) => {
            return Err(e);
        },
    }
    match listen_socket(&fd) {
        Ok(()) => Ok(fd),
        Err(e) => Err(e),
    }
}

/// Opens (or creates) the lock file at `path` and takes the exclusive
/// non-blocking advisory lock on it. The returned descriptor keeps the lock
/// held until it is dropped, which closes the file and releases the lock.
fn lock_file(path: &String) -> (r: Result<rustix::fd::OwnedFd, SocketError>)
    ensures
        r matches Err(e) ==> (e == SocketError::LockOpen || e == SocketError::LockAcquire),
{
    let fd = match open_lock_file(path) {
        Ok(fd) => fd,
        Err(e) => {
            return Err(e);
        },
    };
    match try_lock_exclusive(&fd) {
        Ok(()) => Ok(fd),
        Err(e) => Err(e),
    }
}

/// A bound Wayland server socket: one name, its two filesystem artifacts
/// (the socket file and the lock file), the listening handle, and the held
/// lock descriptor.
#[derive(Debug)]
pub struct WaylandSocket {
    listener: rustix::fd::OwnedFd,
    name: String,
    bind_path: String,
    lock_path: String,
    lock: rustix::fd::OwnedFd,
}

impl WaylandSocket {
    /// The socket's logical name.
    pub closed spec fn spec_name(self) -> Seq<char> {
        self.name@
    }

    /// The path of the socket file.
    pub closed spec fn spec_bind_path(self) -> Seq<char> {
        self.bind_path@
    }

    /// The path of the lock file.
    pub closed spec fn spec_lock_path(self) -> Seq<char> {
        self.lock_path@
    }

    /// Both paths derive from one directory and the socket's name; in
    /// particular the lock path is the bind path with the fixed suffix.
    pub open spec fn wf(self) -> bool {
        exists|dir: Seq<char>|
            self.spec_bind_path() == bind_path_spec(dir, self.spec_name())
                && self.spec_lock_path() == lock_path_spec(dir, self.spec_name())
    }

    /// Binds to a socket in the given directory with the given name: takes
    /// the per-name lock, clears any stale socket file (only after the lock
    /// is confirmed held, so no live owner's socket is ever deleted), then
    /// binds. A lock taken here is released again on a bind failure, since
    /// the descriptor holding it is dropped before the error returns.
    pub fn with_name_in_dir(dir: &str, name: &str) -> (r: Result<WaylandSocket, SocketError>)
        ensures
            r matches Ok(s) ==> s.spec_name() == name@ && s.spec_bind_path() == bind_path_spec(
                dir@,
                name@,
            ) && s.spec_lock_path() == lock_path_spec(dir@, name@) && s.wf(),
            r matches Err(e) ==> (e == SocketError::LockOpen || e == SocketError::LockAcquire
                || e == SocketError::Bind),
    {
        let (bind_path, lock_path) = build_paths(dir, name);

        let lock = match lock_file(&lock_path) {
            Ok(fd) => fd,
            Err(e) => {
                return Err(e);
            },
        };

        remove_file(&bind_path);

        let listener = match bind_listener(&bind_path) {
            Ok(listener) => listener,
            Err(e) => {
                return Err(e);
            },
        };

        let socket = WaylandSocket { listener, name: name.to_owned(), bind_path, lock_path, lock };
        proof {
            assert(socket.spec_bind_path() == bind_path_spec(dir@, socket.spec_name())
                && socket.spec_lock_path() == lock_path_spec(dir@, socket.spec_name()));
        }
        Ok(socket)
    }

    /// Tries each candidate name in order: a contended name (its lock is
    /// already held) is skipped; any other failure aborts the whole
    /// selection; an exhausted sequence reports that no socket is
    /// available. A successful result is bound to one of the candidates.
    pub fn with_candidates_in_dir(dir: &str, candidates: &Vec<String>) -> (r: Result<
        WaylandSocket,
        SocketError,
    >)
        ensures
            r matches Ok(s) ==> exists|i: int|
                0 <= i < candidates@.len() && s.spec_name() == #[trigger] candidates@[i]@
                    && s.spec_bind_path() == bind_path_spec(dir@, candidates@[i]@)
                    && s.spec_lock_path() == lock_path_spec(dir@, candidates@[i]@),
            r matches Ok(s) ==> s.wf(),
            r matches Err(e) ==> (e == SocketError::NoAvailableSocket || e == SocketError::LockOpen
                || e == SocketError::Bind),
            candidates@.len() == 0 ==> r == Err::<WaylandSocket, SocketError>(
                SocketError::NoAvailableSocket,
            ),
    {
        let mut idx: usize = 0;
        while idx < candidates.len()
            invariant
                idx <= candidates@.len(),
            decreases candidates@.len() - idx,
        {
            match Self::with_name_in_dir(dir, candidates[idx].as_str()) {
                Ok(socket) => {
                    proof {
                        assert(socket.spec_name() == candidates@[idx as int]@
                            && socket.spec_bind_path() == bind_path_spec(
                            dir@,
                            candidates@[idx as int]@,
                        ) && socket.spec_lock_path() == lock_path_spec(
                            dir@,
                            candidates@[idx as int]@,
                        ));
                    }
                    return Ok(socket);
                },
                Err(SocketError::LockAcquire) => {},
                Err(e) => {
                    return Err(e);
                },
            }
            idx = idx + 1;
        }
        Err(SocketError::NoAvailableSocket)
    }

    /// The name of the socket.
    pub fn name(&self) -> (r: &str)
        ensures
            r@ == self.spec_name(),
    {
        self.name.as_str()
    }

    /// The path of the socket file.
    pub fn bind_path(&self) -> (r: &str)
        ensures
            r@ == self.spec_bind_path(),
    {
        self.bind_path.as_str()
    }

    /// The path of the lock file.
    pub fn lock_path(&self) -> (r: &str)
        ensures
            r@ == self.spec_lock_path(),
    {
        self.lock_path.as_str()
    }

    /// The listening descriptor (non-blocking), for accepting connections.
    pub fn listener(&self) -> &rustix::fd::OwnedFd {
        &self.listener
    }
}

impl Drop for WaylandSocket {
    /// Discards the endpoint: removes the socket file and the lock file,
    /// best-effort, then releases the lock as its descriptor is closed (the
    /// removals come first, so the name is never observed unlocked while
    /// its artifacts linger).
    fn drop(&mut self)
        opens_invariants none
        no_unwind
    {
        remove_file(&self.bind_path);
        remove_file(&self.lock_path);
    }
}

} // verus!

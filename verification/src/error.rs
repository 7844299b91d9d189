use vstd::prelude::*;

verus! {

/// Errors arising while selecting, locking, binding, or accepting on a
/// Wayland server socket.
#[derive(Debug, Clone, Copy, PartialEq, Eq, Structural)]
pub enum SocketError {
    /// Every candidate name was contended or otherwise unusable.
    NoAvailableSocket,
    /// The runtime directory setting is missing or not an absolute path.
    RuntimeDirInvalid,
    /// The lock file could not be opened or created.
    LockOpen,
    /// The lock is already held by another holder.
    LockAcquire,
    /// The listening socket could not be created.
    Bind,
    /// An incoming connection could not be accepted.
    Accept,
}

impl SocketError {
    /// A short description of the error, suitable for display by a caller.
    pub fn message(&self) -> (r: &'static str)
        ensures
            *self == SocketError::NoAvailableSocket ==> r@ == "no available socket candidates"@,
            *self == SocketError::RuntimeDirInvalid ==> r@ == "runtime directory not set or invalid"@,
            *self == SocketError::LockOpen ==> r@ == "could not open or create lock file"@,
            *self == SocketError::LockAcquire ==> r@ == "could not acquire file lock"@,
            *self == SocketError::Bind ==> r@ == "could not bind to socket"@,
            *self == SocketError::Accept ==> r@ == "could not accept incoming connection"@,
    {
        match self {
            SocketError::NoAvailableSocket => "no available socket candidates",
            SocketError::RuntimeDirInvalid => "runtime directory not set or invalid",
            SocketError::LockOpen => "could not open or create lock file",
            SocketError::LockAcquire => "could not acquire file lock",
            SocketError::Bind => "could not bind to socket",
            SocketError::Accept => "could not accept incoming connection",
        }
    }
}

} // verus!

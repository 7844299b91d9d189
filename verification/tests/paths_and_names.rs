use wayland_socket::build_paths;
use wayland_socket::decimal_string;
use wayland_socket::default_candidates;
use wayland_socket::xdg_runtime_dir;
use wayland_socket::SocketError;

#[test]
fn build_paths_derivation() {
    let (bind, lock) = build_paths("/run/user/1000", "wayland-1");
    assert_eq!(bind, "/run/user/1000/wayland-1");
    assert_eq!(lock, "/run/user/1000/wayland-1.lock");
}

#[test]
fn build_paths_empty_name() {
    let (bind, lock) = build_paths("/tmp", "");
    assert_eq!(bind, "/tmp/");
    assert_eq!(lock, "/tmp/.lock");
}

#[test]
fn runtime_dir_missing_is_invalid() {
    assert_eq!(xdg_runtime_dir(None), Err(SocketError::RuntimeDirInvalid));
}

#[test]
fn runtime_dir_relative_is_invalid() {
    assert_eq!(
        xdg_runtime_dir(Some(String::from("run/user/1000"))),
        Err(SocketError::RuntimeDirInvalid)
    );
}

#[test]
fn runtime_dir_empty_is_invalid() {
    assert_eq!(
        xdg_runtime_dir(Some(String::new())),
        Err(SocketError::RuntimeDirInvalid)
    );
}

#[test]
fn runtime_dir_absolute_is_accepted() {
    let r = xdg_runtime_dir(Some(String::from("/run/user/1000")));
    assert_eq!(r, Ok(String::from("/run/user/1000")));
}

#[test]
fn decimal_rendering() {
    assert_eq!(decimal_string(0), "0");
    assert_eq!(decimal_string(7), "7");
    assert_eq!(decimal_string(10), "10");
    assert_eq!(decimal_string(31), "31");
    assert_eq!(decimal_string(12345), "12345");
    assert_eq!(decimal_string(u64::MAX), "18446744073709551615");
}

#[test]
fn default_candidates_skip_zero_and_bound() {
    let names = default_candidates();
    assert_eq!(names.len(), 31);
    assert_eq!(names[0], "wayland-1");
    assert_eq!(names[1], "wayland-2");
    assert_eq!(names[30], "wayland-31");
    for (i, name) in names.iter().enumerate() {
        assert_eq!(*name, format!("wayland-{}", i + 1));
    }
}

#[test]
fn error_messages() {
    assert_eq!(
        SocketError::NoAvailableSocket.message(),
        "no available socket candidates"
    );
    assert_eq!(
        SocketError::RuntimeDirInvalid.message(),
        "runtime directory not set or invalid"
    );
    assert_eq!(
        SocketError::LockOpen.message(),
        "could not open or create lock file"
    );
    assert_eq!(
        SocketError::LockAcquire.message(),
        "could not acquire file lock"
    );
    assert_eq!(SocketError::Bind.message(), "could not bind to socket");
    assert_eq!(
        SocketError::Accept.message(),
        "could not accept incoming connection"
    );
}

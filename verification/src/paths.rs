use vstd::prelude::*;
use vstd::string::StrSliceExecFns;
use vstd::string::StringExecFns;

use crate::error::SocketError;

verus! {

/// The socket path for `name` under `dir`: `dir/name`.
pub open spec fn bind_path_spec(dir: Seq<char>, name: Seq<char>) -> Seq<char> {
    dir + "/"@ + name
}

/// The lock path for `name` under `dir`: the bind path with a fixed suffix.
pub open spec fn lock_path_spec(dir: Seq<char>, name: Seq<char>) -> Seq<char> {
    bind_path_spec(dir, name) + ".lock"@
}

/// Builds the pair (bind path, lock path) for the socket `name` under `dir`.
pub fn build_paths(dir: &str, name: &str) -> (r: (String, String))
    ensures
        r.0@ == bind_path_spec(dir@, name@),
        r.1@ == lock_path_spec(dir@, name@),
{
    let mut bind = dir.to_owned();
    bind.append("/");
    bind.append(name);
    let lock = bind.clone().concat(".lock");
    (bind, lock)
}

/// An absolute path: non-empty and rooted at `/`.
pub open spec fn is_absolute_path(s: Seq<char>) -> bool {
    s.len() > 0 && s[0] == '/'
}

/// Validates the runtime-directory setting (the value of `XDG_RUNTIME_DIR`,
/// handed in by the caller): it must be present and an absolute path.
/// Performs no filesystem access; invalid input is rejected before any I/O.
pub fn xdg_runtime_dir(value: Option<String>) -> (r: Result<String, SocketError>)
    ensures
        r is Ok <==> (value is Some && is_absolute_path(value->Some_0@)),
        r matches Ok(d) ==> d@ == value->Some_0@,
        r matches Err(e) ==> e == SocketError::RuntimeDirInvalid,
{
    match value {
        Option::None => Err(SocketError::RuntimeDirInvalid),
        Option::Some(dir) => {
            if dir.as_str().unicode_len() == 0 {
                Err(SocketError::RuntimeDirInvalid)
            } else if dir.as_str().get_char(0) == '/' {
                Ok(dir)
            } else {
                Err(SocketError::RuntimeDirInvalid)
            }
        },
    }
}

/// Within one directory, distinct names give distinct socket paths: the
/// socket path determines the name.
pub proof fn lemma_bind_path_injective(dir: Seq<char>, n1: Seq<char>, n2: Seq<char>)
    ensures
        bind_path_spec(dir, n1) == bind_path_spec(dir, n2) ==> n1 == n2,
{
    if bind_path_spec(dir, n1) == bind_path_spec(dir, n2) {
        let p = bind_path_spec(dir, n1);
        let off = dir.len() + "/"@.len();
        assert(bind_path_spec(dir, n1).len() == dir.len() + "/"@.len() + n1.len());
        assert(bind_path_spec(dir, n2).len() == dir.len() + "/"@.len() + n2.len());
        assert(n1.len() == n2.len());
        assert forall|i: int| 0 <= i < n1.len() implies n1[i] == n2[i] by {
            assert(p[off + i] == n1[i]);
            assert(bind_path_spec(dir, n2)[off + i] == n2[i]);
        }
        assert(n1 =~= n2);
    }
}

/// The two artifacts of one name never collide: the lock path is strictly
/// longer than the bind path.
pub proof fn lemma_bind_lock_distinct(dir: Seq<char>, name: Seq<char>)
    ensures
        bind_path_spec(dir, name) != lock_path_spec(dir, name),
{
    reveal_strlit(".lock");
    assert(lock_path_spec(dir, name).len() == bind_path_spec(dir, name).len() + 5);
}

} // verus!

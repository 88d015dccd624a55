//! The two files of an instance. Both paths follow from the instance's
//! name alone: there is no registry, and an instance exists where its
//! socket is bound.

use vstd::prelude::*;
use vstd::string::*;

verus! {

/// What both paths begin with.
pub open spec fn path_prefix() -> Seq<char> {
    "/tmp/imrefs-"@
}

/// The control socket of the instance called `name`.
pub open spec fn socket_path_of(name: Seq<char>) -> Seq<char> {
    path_prefix() + name + ".sock"@
}

/// The state file of the instance called `name`.
pub open spec fn state_path_of(name: Seq<char>) -> Seq<char> {
    path_prefix() + name + ".tmp"@
}

/// The path of the control socket of the instance called `name`. The name
/// is used as it is.
pub fn socket_path(name: &str) -> (path: String)
    ensures
        path@ == socket_path_of(name@),
{
    let mut path = String::from_str("/tmp/imrefs-");
    path.append(name);
    path.append(".sock");
    path
}

/// The path of the state file of the instance called `name`. The name is
/// used as it is.
pub fn state_path(name: &str) -> (path: String)
    ensures
        path@ == state_path_of(name@),
{
    let mut path = String::from_str("/tmp/imrefs-");
    path.append(name);
    path.append(".tmp");
    path
}

/// No socket path is a state path, of the same instance or of another.
pub proof fn lemma_socket_is_no_state_file(name: Seq<char>, other: Seq<char>)
    ensures
        socket_path_of(name) != state_path_of(other),
{
    reveal_strlit(".sock");
    reveal_strlit(".tmp");
    let socket = socket_path_of(name);
    let state = state_path_of(other);
    assert(socket[socket.len() - 1] == 'k');
    assert(state[state.len() - 1] == 'p');
}

/// Instances with different names share no path.
pub proof fn lemma_names_keep_paths_apart(name: Seq<char>, other: Seq<char>)
    requires
        name != other,
    ensures
        socket_path_of(name) != socket_path_of(other),
        state_path_of(name) != state_path_of(other),
{
    let front = path_prefix().len() as int;
    if socket_path_of(name) == socket_path_of(other) {
        assert(socket_path_of(name).len() == front + name.len() + ".sock"@.len());
        assert(socket_path_of(other).len() == front + other.len() + ".sock"@.len());
        assert forall|i: int| 0 <= i < name.len() implies name[i] == other[i] by {
            assert(socket_path_of(name)[front + i] == name[i]);
            assert(socket_path_of(other)[front + i] == other[i]);
        }
        assert(name =~= other);
    }
    if state_path_of(name) == state_path_of(other) {
        assert(state_path_of(name).len() == front + name.len() + ".tmp"@.len());
        assert(state_path_of(other).len() == front + other.len() + ".tmp"@.len());
        assert forall|i: int| 0 <= i < name.len() implies name[i] == other[i] by {
            assert(state_path_of(name)[front + i] == name[i]);
            assert(state_path_of(other)[front + i] == other[i]);
        }
        assert(name =~= other);
    }
}

} // verus!

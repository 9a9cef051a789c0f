//! Utilities for passing the path of the liveness socket to a service.
use crate::command::{
    child_env, env_changed, env_value, EnvChange, Environment, ServiceCommand, ServiceCommandView,
};
use crate::path::optional;
use vstd::prelude::*;
use vstd::slice::slice_to_vec;

verus! {

/// Environment variable by which the path of the liveness socket is communicated.
pub const LIVENESS_ENV_VAR: &'static str = "SUSS_LIVENESS_SOCKET_PATH";

/// The change that makes an environment say that the liveness socket is at `liveness_path`, or,
/// where that is `None`, that there is none.
pub open spec fn liveness_change(liveness_path: Option<Seq<u8>>) -> EnvChange<Seq<char>, Seq<u8>> {
    match liveness_path {
        Some(path) => EnvChange::Assign { name: LIVENESS_ENV_VAR@, value: path },
        None => EnvChange::Remove { name: LIVENESS_ENV_VAR@ },
    }
}

/// The change to the environment of a child process that tells it where the liveness socket is, or
/// that there is none.
pub fn liveness_environment(child_liveness_path_state: Option<&[u8]>) -> (change: EnvChange<
    String,
    Vec<u8>,
>)
    ensures
        change@ == liveness_change(optional(child_liveness_path_state)),
        match child_liveness_path_state {
            Some(liveness_path) => change matches EnvChange::Assign { name, value } && name@
                == "SUSS_LIVENESS_SOCKET_PATH"@ && value@ == liveness_path@,
            None => change matches EnvChange::Remove { name } && name@
                == "SUSS_LIVENESS_SOCKET_PATH"@,
        },
{
    match child_liveness_path_state {
        Some(liveness_path) => EnvChange::Assign {
            name: LIVENESS_ENV_VAR.to_owned(),
            value: slice_to_vec(liveness_path),
        },
        None => EnvChange::Remove { name: LIVENESS_ENV_VAR.to_owned() },
    }
}

/// Ensure that, for the command given, the environment variable [`LIVENESS_ENV_VAR`] exists with
/// the liveness socket path as passed to this function, or if the liveness path is `None`, ensure
/// that the environment variable doesn't exist. The command is handed back, to go on with.
///
/// On a service's server, see [`retrieve_liveness_path`] for obtaining the liveness path from the
/// environment.
pub fn set_liveness_environment<'c>(
    command: &'c mut ServiceCommand,
    child_liveness_path_state: Option<&[u8]>,
) -> (same: &'c mut ServiceCommand)
    ensures
        same@ == (ServiceCommandView {
            env: old(command)@.env.push(
                liveness_change(optional(child_liveness_path_state)),
            ),
            ..old(command)@
        }),
        same.program == old(command).program,
        same.args == old(command).args,
        same.env@.len() == old(command).env@.len() + 1,
        same.env@.drop_last() == old(command).env@,
        match child_liveness_path_state {
            Some(liveness_path) => same.env@.last() matches EnvChange::Assign { name, value }
                && name@ == "SUSS_LIVENESS_SOCKET_PATH"@ && value@ == liveness_path@,
            None => same.env@.last() matches EnvChange::Remove { name } && name@
                == "SUSS_LIVENESS_SOCKET_PATH"@,
        },
        *final(command) == *final(same),
{
    command.change_env(liveness_environment(child_liveness_path_state));
    command
}

/// What a server does with its environment to learn of the liveness socket, given the value that
/// [`LIVENESS_ENV_VAR`] has there, if any: the path, and the change to make to the environment, so
/// that the path does not leak into any child processes started by the server.
pub fn retrieve_liveness_path(value: Option<Vec<u8>>) -> (retrieved: (
    Option<Vec<u8>>,
    EnvChange<String, Vec<u8>>,
))
    ensures
        retrieved.0 == value,
        retrieved.1@ == liveness_change(None),
        retrieved.1 matches EnvChange::Remove { name } && name@ == "SUSS_LIVENESS_SOCKET_PATH"@,
{
    (value, liveness_environment(None))
}

/// A service started with a command that was given a liveness path finds exactly that path in its
/// environment, to be retrieved; one started with a command that was given none finds no path,
/// whatever its parent had. No other variable is affected.
pub proof fn law_child_sees_liveness_path(
    environment: Environment,
    changes: Seq<EnvChange<Seq<char>, Seq<u8>>>,
    liveness_path: Option<Seq<u8>>,
)
    ensures
        ({
            let before = child_env(environment, changes);
            let after = child_env(environment, changes.push(liveness_change(liveness_path)));
            &&& env_value(after, LIVENESS_ENV_VAR@) == liveness_path
            &&& forall|name: Seq<char>|
                name != LIVENESS_ENV_VAR@ ==> #[trigger] env_value(after, name) == env_value(
                    before,
                    name,
                )
        }),
{
    let change = liveness_change(liveness_path);
    let all = changes.push(change);
    assert(all.drop_last() =~= changes);
    assert(child_env(environment, all) == env_changed(child_env(environment, changes), change));
}

/// After a server has retrieved the liveness path, its environment no longer has the variable, so
/// a child process finds none unless its command sets it anew. No other variable is affected.
pub proof fn law_retrieval_does_not_leak(
    environment: Environment,
    changes: Seq<EnvChange<Seq<char>, Seq<u8>>>,
)
    requires
        forall|i: int|
            0 <= i < changes.len() ==> !(#[trigger] changes[i] matches EnvChange::Assign {
                name,
                ..
            } && name == LIVENESS_ENV_VAR@),
    ensures
        ({
            let after = env_changed(environment, liveness_change(None));
            &&& env_value(after, LIVENESS_ENV_VAR@) is None
            &&& env_value(child_env(after, changes), LIVENESS_ENV_VAR@) is None
            &&& forall|name: Seq<char>|
                name != LIVENESS_ENV_VAR@ ==> #[trigger] env_value(after, name) == env_value(
                    environment,
                    name,
                )
        }),
    decreases changes.len(),
{
    if changes.len() > 0 {
        let fewer = changes.drop_last();
        assert forall|i: int| 0 <= i < fewer.len() implies !(
        #[trigger] fewer[i] matches EnvChange::Assign { name, .. } && name == LIVENESS_ENV_VAR@) by {
            assert(fewer[i] == changes[i]);
        }
        law_retrieval_does_not_leak(environment, fewer);
    }
}

/// What a liveness path does to an environment: given, the one variable gets exactly its bytes;
/// missing, that variable is removed.
pub proof fn law_liveness_change(path: Seq<u8>)
    ensures
        liveness_change(Some(path)) matches EnvChange::Assign { name, value } && name
            == "SUSS_LIVENESS_SOCKET_PATH"@ && value == path,
        liveness_change(None) matches EnvChange::Remove { name } && name
            == "SUSS_LIVENESS_SOCKET_PATH"@,
{
}

} // verus!

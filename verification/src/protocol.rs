//! How clients, the services they start, and the servers of those find each other.
use crate::command::{child_env, env_value, Environment};
use crate::connect::ConnectRequest;
use crate::connect_laws::{
    bound_paths, connect_answered, connected_paths, law_second_attempt_follows_ping,
    law_service_is_started_at_most_once, spawns, ConnectTrace,
};
use crate::liveness::{law_child_sees_liveness_path, liveness_change, LIVENESS_ENV_VAR};
use crate::path::joined;
use crate::picked::picked;
use crate::serve_laws::{
    binds, law_ping_follows_bind, law_serve_cleans_up, pings, serve_actions, serve_answered,
    ServeTrace,
};
use vstd::prelude::*;

verus! {

/// Clients look for a service where its servers listen: in one base context directory, every path
/// that a client connects to for a service is the one path that a server of the service binds, at
/// whatever point either of them stands.
pub proof fn law_clients_look_where_servers_listen<'a, C, S, A, L, K, Conn, E, W, Out>(
    base: Seq<u8>,
    socket_name: Seq<u8>,
    request: ConnectRequest<'a, Seq<u8>, C>,
    client: ConnectTrace<S, A, L, K, Conn, E>,
    liveness_path: Option<Seq<u8>>,
    server: ServeTrace<S, L, W, Out, E>,
)
    requires
        request.socket_path == joined(base, socket_name),
        connect_answered(request, client),
        serve_answered(joined(base, socket_name), liveness_path, server),
    ensures
        ({
            let listened = picked(
                serve_actions(joined(base, socket_name), liveness_path, server),
                binds(),
            );
            &&& listened.len() == 1
            &&& connected_paths(request, client).len() > 0
            &&& forall|i: int|
                0 <= i < connected_paths(request, client).len() ==> #[trigger] connected_paths(
                    request,
                    client,
                )[i] == listened[0]
        }),
{
    law_second_attempt_follows_ping(request, client);
    law_serve_cleans_up(joined(base, socket_name), liveness_path, server);
}

/// The ping of a service that was started reaches the process that started it: what the service
/// retrieves from its environment, whatever else that holds, is the path that the other process
/// has bound its ephemeral socket to, and the service's server pings that path or, as yet, none.
pub proof fn law_ping_reaches_the_starter<'a, C, S, A, L, K, Conn, E, W, Out>(
    request: ConnectRequest<'a, Seq<u8>, C>,
    starter: ConnectTrace<S, A, L, K, Conn, E>,
    environment: Environment,
    server_path: Seq<u8>,
    server: ServeTrace<S, L, W, Out, E>,
)
    requires
        connect_answered(request, starter),
        spawns(request, starter).len() > 0,
        serve_answered(
            server_path,
            env_value(
                child_env(
                    environment,
                    seq![liveness_change(Some(spawns(request, starter)[0].1))],
                ),
                LIVENESS_ENV_VAR@,
            ),
            server,
        ),
    ensures
        ({
            let retrieved = env_value(
                child_env(
                    environment,
                    seq![liveness_change(Some(spawns(request, starter)[0].1))],
                ),
                LIVENESS_ENV_VAR@,
            );
            let pinged = picked(serve_actions(server_path, retrieved, server), pings());
            &&& bound_paths(request, starter).len() == 1
            &&& retrieved == Some(bound_paths(request, starter)[0])
            &&& pinged.len() == 0 || pinged == bound_paths(request, starter)
        }),
{
    law_service_is_started_at_most_once(request, starter);
    let told = spawns(request, starter)[0].1;
    law_child_sees_liveness_path(environment, seq![], Some(told));
    assert(seq![liveness_change(Some(told))] =~= Seq::empty().push(liveness_change(Some(told))));
    law_ping_follows_bind(server_path, Some(told), server);
    assert(seq![told] =~= bound_paths(request, starter));
}

} // verus!

use suss::attempt::{AttemptAction, AttemptEvent};
use suss::connect::{ConnectAction, ConnectEvent, ConnectProgress};
use suss::create::{CreateAction, CreateEvent};
use suss::liveness::{retrieve_liveness_path, LIVENESS_ENV_VAR};
use suss::notify::NotifyAction;
use suss::serve::{ServeAction, ServeEvent, ServeProgress};
use suss::{
    CleanablePathBuf, DeclaredCommand, DeclaredService, EnvChange, LivenessTimeout,
    ReifiedService, Server, Service, ServiceExt, UnixSocketInterface,
};

/// Sockets that are only numbers.
struct Numbers;

impl UnixSocketInterface for Numbers {
    type UnixStream = u32;
    type UnixListener = u32;
    type SocketAddr = u32;
}

struct TestServer;

impl Server<DeclaredService, Numbers> for TestServer {
    type ListenerWrapper = u64;
    type FinalOutput = u8;
}

type Client<'a> =
    ConnectProgress<'a, Vec<u8>, CleanablePathBuf, Vec<u8>, u32, u32, u32, u32, &'static str>;
type Event = ConnectEvent<Vec<u8>, u32, u32, u32, u32, u32, &'static str>;
type Serving = ServeProgress<Vec<u8>, CleanablePathBuf, u32, u32, u64, u8, &'static str>;

fn service() -> ReifiedService<'static, DeclaredService, Numbers> {
    DeclaredService {
        socket_name: b"hello-service.sock".to_vec(),
    }
    .reify(b"/var/run")
}

fn go_on(client: Client<'_>, event: Event) -> Client<'_> {
    match client {
        ConnectProgress::Ongoing(connecting, _) => {
            assert!(connecting.awaits(&event));
            connecting.step(event)
        }
        ConnectProgress::Finished(outcome) => panic!("finished with {outcome:?}"),
    }
}

#[test]
fn clients_look_where_servers_listen() {
    let timeout = LivenessTimeout::new(1, 0).unwrap();
    let reified = service();
    let client: Client<'_> = reified.connect(timeout);
    let server: Serving = reified.serve_service_implementation(&TestServer, None);
    let connected = match client {
        ConnectProgress::Ongoing(_, ConnectAction::Attempt(AttemptAction::Connect { path })) => {
            path
        }
        other => panic!("{other:?}"),
    };
    let bound = match server {
        ServeProgress::Ongoing(_, ServeAction::Bind { path }) => path,
        other => panic!("{other:?}"),
    };
    assert_eq!(connected, b"/var/run/hello-service.sock".to_vec());
    assert_eq!(connected, bound);
}

#[test]
fn ping_reaches_the_starter() {
    let timeout = LivenessTimeout::new(1, 0).unwrap();
    let reified = service();
    let client: Client<'_> = reified.connect(timeout);

    // The client finds nobody and binds an ephemeral socket.
    let client = go_on(
        client,
        ConnectEvent::Attempt(AttemptEvent::Connected(Err("nobody"))),
    );
    let client = go_on(
        client,
        ConnectEvent::Create(CreateEvent::TempDir(b"/tmp/".to_vec())),
    );
    let ephemeral = match &client {
        ConnectProgress::Ongoing(_, ConnectAction::Create(CreateAction::Bind { path })) => {
            path.clone()
        }
        other => panic!("{other:?}"),
    };
    assert!(ephemeral.starts_with(b"/tmp/temp-"));
    let client = go_on(client, ConnectEvent::Create(CreateEvent::Bound(Ok(1))));

    // The service is started with the path of the socket in its environment, and retrieves it.
    let mut command = match client {
        ConnectProgress::Ongoing(
            _,
            ConnectAction::Spawn {
                executor_prefix,
                liveness_path,
            },
        ) => DeclaredCommand {
            command: b"hello".to_vec(),
            args: vec![],
        }
        .run_service_command_raw(executor_prefix, Some(&liveness_path)),
        other => panic!("{other:?}"),
    };
    assert_eq!(command.env.len(), 1);
    let value = match command.env.remove(0) {
        EnvChange::Assign { name, value } => {
            assert_eq!(name, LIVENESS_ENV_VAR);
            value
        }
        other => panic!("{other:?}"),
    };
    let (retrieved, _) = retrieve_liveness_path(Some(value));

    // Its server pings that path, once its own socket exists.
    let server: Serving =
        reified.serve_service_implementation(&TestServer, retrieved.as_deref());
    let server: Serving = match server {
        ServeProgress::Ongoing(stage, ServeAction::Bind { .. }) => {
            stage.step(ServeEvent::Bound(Ok(2)))
        }
        other => panic!("{other:?}"),
    };
    match server {
        ServeProgress::Ongoing(_, ServeAction::Notify(NotifyAction::Connect { path })) => {
            assert_eq!(path, ephemeral)
        }
        other => panic!("{other:?}"),
    }
}

/// A service whose socket is always the same.
#[derive(Debug)]
struct Clock;

impl Service<Numbers> for Clock {
    type ServiceClientConnection = u64;

    fn socket_name(&self) -> &[u8] {
        b"clock.sock"
    }
}

#[test]
fn services_of_other_types_are_found_by_their_names() {
    let reified = ServiceExt::<Numbers>::reify(Clock, b"/var/run/");
    let progress: suss::attempt::AttemptProgress<Vec<u8>, u32, u64, &'static str> =
        reified.connect_to_running();
    match progress {
        suss::attempt::AttemptProgress::Ongoing(_, AttemptAction::Connect { path }) => {
            assert_eq!(path, b"/var/run/clock.sock".to_vec())
        }
        other => panic!("{other:?}"),
    }
}

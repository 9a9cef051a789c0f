use suss::notify::{notify_liveness_socket, NotifyAction, NotifyEvent, NotifyProgress};
use suss::serve::{ServeAction, ServeEvent, ServeProgress};
use suss::{
    CleanablePathBuf, DeclaredService, ReifiedService, Server, ServerExt, ServiceExt,
    UnixSocketInterface,
};

/// Sockets that are only numbers.
struct Numbers;

impl UnixSocketInterface for Numbers {
    type UnixStream = u32;
    type UnixListener = u32;
    type SocketAddr = u32;
}

struct TestServer;

impl Server<DeclaredService, Numbers> for TestServer {
    type ListenerWrapper = u64;
    type FinalOutput = String;
}

type Progress =
    ServeProgress<Vec<u8>, CleanablePathBuf, u32, u32, u64, String, &'static str>;

struct World {
    bind: Result<u32, &'static str>,
    ping: Result<u32, &'static str>,
    shutdown: Result<(), &'static str>,
    wrap: Result<u64, &'static str>,
    run: Result<String, &'static str>,
    log: Vec<String>,
}

fn willing() -> World {
    World {
        bind: Ok(1),
        ping: Ok(2),
        shutdown: Ok(()),
        wrap: Ok(3),
        run: Ok("done".to_string()),
        log: vec![],
    }
}

fn text(bytes: &[u8]) -> String {
    String::from_utf8(bytes.to_vec()).unwrap()
}

impl World {
    fn notify(&mut self, action: NotifyAction<Vec<u8>, u32>) -> NotifyEvent<u32, &'static str> {
        match action {
            NotifyAction::Connect { path } => {
                self.log.push(format!("ping {}", text(&path)));
                NotifyEvent::Connected(self.ping)
            }
            NotifyAction::Shutdown { stream } => {
                self.log.push(format!("shutdown {stream}"));
                NotifyEvent::ShutDown(self.shutdown)
            }
        }
    }

    fn answer(
        &mut self,
        action: ServeAction<Vec<u8>, CleanablePathBuf, u32, u32, u64>,
    ) -> ServeEvent<u32, u32, u64, String, &'static str> {
        match action {
            ServeAction::Bind { path } => {
                self.log.push(format!("bind {}", text(&path)));
                ServeEvent::Bound(self.bind)
            }
            ServeAction::Notify(action) => ServeEvent::Notify(self.notify(action)),
            ServeAction::Wrap { listener } => {
                self.log.push(format!("wrap {listener}"));
                ServeEvent::Wrapped(self.wrap)
            }
            ServeAction::Run { wrapper } => {
                self.log.push(format!("run {wrapper}"));
                ServeEvent::Ran(self.run.clone())
            }
            ServeAction::Remove { cleanable } => {
                self.log.push(format!("remove {}", text(cleanable.as_ref())));
                ServeEvent::Removed
            }
        }
    }

    fn drive(&mut self, mut progress: Progress) -> Result<String, &'static str> {
        loop {
            match progress {
                ServeProgress::Finished(outcome) => return outcome,
                ServeProgress::Ongoing(stage, action) => {
                    let event = self.answer(action);
                    assert!(stage.awaits(&event));
                    progress = stage.step(event);
                }
            }
        }
    }
}

fn serve(world: &mut World, liveness_path: Option<&[u8]>) -> Result<String, &'static str> {
    let service = DeclaredService {
        socket_name: b"test.sock".to_vec(),
    };
    let reified: ReifiedService<'_, DeclaredService, Numbers> = service.reify(b"/run");
    world.drive(reified.serve_service_implementation(&TestServer, liveness_path))
}

#[test]
fn server_pings_after_binding_and_cleans_up_in_the_end() {
    let mut world = willing();
    assert_eq!(
        serve(&mut world, Some(b"/tmp/temp-1.sock")),
        Ok("done".to_string())
    );
    assert_eq!(
        world.log,
        vec![
            "bind /run/test.sock",
            "ping /tmp/temp-1.sock",
            "shutdown 2",
            "wrap 1",
            "run 3",
            "remove /run/test.sock",
        ]
    );
}

#[test]
fn server_without_liveness_path_pings_nobody() {
    let mut world = willing();
    let service = DeclaredService {
        socket_name: b"test.sock".to_vec(),
    };
    let outcome = world.drive(TestServer.start_and_run_server(&service, b"/run", None));
    assert_eq!(outcome, Ok("done".to_string()));
    assert_eq!(
        world.log,
        vec!["bind /run/test.sock", "wrap 1", "run 3", "remove /run/test.sock"]
    );
}

#[test]
fn failure_to_ping_is_ignored() {
    let mut world = willing();
    world.ping = Err("gone");
    assert_eq!(serve(&mut world, Some(b"/p")), Ok("done".to_string()));

    let mut world = willing();
    world.shutdown = Err("gone");
    assert_eq!(serve(&mut world, Some(b"/p")), Ok("done".to_string()));
}

#[test]
fn failure_to_bind_is_the_outcome() {
    let mut world = willing();
    world.bind = Err("in use");
    assert_eq!(serve(&mut world, Some(b"/p")), Err("in use"));
    assert_eq!(
        world.log,
        vec!["bind /run/test.sock", "remove /run/test.sock"]
    );
}

#[test]
fn failure_to_wrap_is_the_outcome() {
    let mut world = willing();
    world.wrap = Err("bad listener");
    assert_eq!(serve(&mut world, None), Err("bad listener"));
    assert_eq!(
        world.log,
        vec!["bind /run/test.sock", "wrap 1", "remove /run/test.sock"]
    );
}

#[test]
fn failure_of_the_server_is_the_outcome() {
    let mut world = willing();
    world.run = Err("crashed");
    assert_eq!(serve(&mut world, None), Err("crashed"));
    assert_eq!(world.log.last().unwrap(), "remove /run/test.sock");
}

#[test]
fn notification_reports_its_failures() {
    for (ping, shutdown, expected) in [
        (Ok(2), Ok(()), Ok(())),
        (Err("gone"), Ok(()), Err("gone")),
        (Ok(2), Err("reset"), Err("reset")),
    ] {
        let mut world = willing();
        world.ping = ping;
        world.shutdown = shutdown;
        let mut progress: NotifyProgress<Vec<u8>, u32, &'static str> =
            notify_liveness_socket(b"/p");
        let outcome = loop {
            match progress {
                NotifyProgress::Finished(outcome) => break outcome,
                NotifyProgress::Ongoing(stage, action) => {
                    let event = world.notify(action);
                    assert!(stage.awaits(&event));
                    progress = stage.step(event);
                }
            }
        };
        assert_eq!(outcome, expected);
    }
}

#[test]
fn run_that_is_given_up_hands_back_its_socket() {
    let mut handed_back: Vec<Option<String>> = vec![];
    for answers in 0..6 {
        let service = DeclaredService {
            socket_name: b"test.sock".to_vec(),
        };
        let reified: ReifiedService<'_, DeclaredService, Numbers> = service.reify(b"/run");
        let mut world = willing();
        let mut progress: Progress =
            reified.serve_service_implementation(&TestServer, Some(b"/tmp/temp-1.sock"));
        for _ in 0..answers {
            progress = match progress {
                ServeProgress::Ongoing(stage, action) => stage.step(world.answer(action)),
                finished => finished,
            };
        }
        match progress {
            ServeProgress::Ongoing(stage, _) => {
                let path = stage.give_up();
                handed_back.push(path.map(|path| text(path.as_ref())));
            }
            ServeProgress::Finished(outcome) => panic!("finished with {outcome:?}"),
        }
    }
    let socket = Some("/run/test.sock".to_string());
    assert_eq!(
        handed_back,
        vec![
            socket.clone(), // binding
            socket.clone(), // pinging
            socket.clone(), // shutting the ping down
            socket.clone(), // wrapping
            socket.clone(), // running
            None,           // removing
        ]
    );
}

use suss::attempt::{AttemptAction, AttemptEvent, AttemptProgress};
use suss::check::{CheckAction, CheckEvent};
use suss::cleanup::{CleanupAction, CleanupEvent};
use suss::connect::{ConnectAction, ConnectEvent, ConnectProgress};
use suss::create::{CreateAction, CreateEvent};
use suss::timeout::timed_out_message;
use suss::{
    BundleContext, CleanablePathBuf, DeclaredCommand, DeclaredService, LivenessTimeout,
    ReifiedService, ServiceBundle, ServiceError, ServiceExt, UnixSocketInterface,
};

/// Sockets that are only numbers.
struct Numbers;

impl UnixSocketInterface for Numbers {
    type UnixStream = u32;
    type UnixListener = u32;
    type SocketAddr = u32;
}

type Action<'a> = ConnectAction<'a, Vec<u8>, CleanablePathBuf, Vec<u8>, u32, u32, u32>;
type Progress<'a> =
    ConnectProgress<'a, Vec<u8>, CleanablePathBuf, Vec<u8>, u32, u32, u32, u32, &'static str>;

/// What a world answers, and what it was asked for.
struct World {
    connects: Vec<Result<u32, &'static str>>,
    wraps: Vec<Result<u32, &'static str>>,
    bind: Result<u32, &'static str>,
    spawn: Result<u32, &'static str>,
    accept: Option<Result<(u32, u32), &'static str>>,
    shutdown: Result<(), &'static str>,
    hand_over: Result<(), &'static str>,
    log: Vec<String>,
}

/// A world in which a service that is not running can be started.
fn willing() -> World {
    World {
        connects: vec![Err("no such file"), Ok(11)],
        wraps: vec![Ok(12)],
        bind: Ok(13),
        spawn: Ok(14),
        accept: Some(Ok((15, 16))),
        shutdown: Ok(()),
        hand_over: Ok(()),
        log: vec![],
    }
}

fn text(bytes: &[u8]) -> String {
    String::from_utf8(bytes.to_vec()).unwrap()
}

impl World {
    fn cleanup(&mut self, action: CleanupAction<CleanablePathBuf, u32>) -> CleanupEvent {
        match action {
            CleanupAction::Remove { cleanable } => {
                self.log.push(format!("remove {}", text(cleanable.as_ref())));
                CleanupEvent::Removed
            }
            CleanupAction::Close { listener } => {
                self.log.push(format!("close {listener}"));
                CleanupEvent::Closed
            }
        }
    }

    fn attempt(
        &mut self,
        action: AttemptAction<Vec<u8>, u32>,
    ) -> AttemptEvent<u32, u32, &'static str> {
        match action {
            AttemptAction::Connect { path } => {
                self.log.push(format!("connect {}", text(&path)));
                AttemptEvent::Connected(self.connects.remove(0))
            }
            AttemptAction::Wrap { stream } => {
                self.log.push(format!("wrap {stream}"));
                AttemptEvent::Wrapped(self.wraps.remove(0))
            }
        }
    }

    fn answer(
        &mut self,
        action: Action<'_>,
    ) -> ConnectEvent<Vec<u8>, u32, u32, u32, u32, u32, &'static str> {
        match action {
            ConnectAction::Attempt(action) => ConnectEvent::Attempt(self.attempt(action)),
            ConnectAction::Create(CreateAction::ReadTempDir) => {
                ConnectEvent::Create(CreateEvent::TempDir(b"/tmp".to_vec()))
            }
            ConnectAction::Create(CreateAction::Bind { path }) => {
                self.log.push(format!("bind {}", text(&path)));
                ConnectEvent::Create(CreateEvent::Bound(self.bind))
            }
            ConnectAction::Create(CreateAction::Remove { cleanable }) => {
                self.log.push(format!("remove {}", text(cleanable.as_ref())));
                ConnectEvent::Create(CreateEvent::Removed)
            }
            ConnectAction::Spawn {
                executor_prefix,
                liveness_path,
            } => {
                let command = DeclaredCommand {
                    command: b"service".to_vec(),
                    args: vec![b"--server".to_vec()],
                }
                .run_service_command_raw(executor_prefix, Some(&liveness_path));
                let args: Vec<String> = command.args.iter().map(|arg| text(arg)).collect();
                self.log
                    .push(format!("spawn {} {}", text(&command.program), args.join(" ")));
                self.log.push(format!("tell {}", text(&liveness_path)));
                ConnectEvent::Spawned(self.spawn)
            }
            ConnectAction::Cleanup(action) => ConnectEvent::Cleaned(self.cleanup(action)),
            ConnectAction::Check(CheckAction::Accept { listener, timeout }) => {
                self.log.push(format!(
                    "accept {listener} within {}s {}ns",
                    timeout.as_secs(),
                    timeout.subsec_nanos()
                ));
                ConnectEvent::Check(CheckEvent::Accepted {
                    listener,
                    outcome: self.accept,
                })
            }
            ConnectAction::Check(CheckAction::Shutdown { stream }) => {
                self.log.push(format!("shutdown {stream}"));
                ConnectEvent::Check(CheckEvent::ShutDown(self.shutdown))
            }
            ConnectAction::Check(CheckAction::Cleanup(action)) => {
                ConnectEvent::Check(CheckEvent::Cleaned(self.cleanup(action)))
            }
            ConnectAction::HandOver { child } => {
                self.log.push(format!("hand over {child}"));
                ConnectEvent::HandedOver(self.hand_over)
            }
        }
    }

    fn drive(&mut self, mut progress: Progress<'_>) -> Result<u32, ServiceError<&'static str>> {
        loop {
            match progress {
                ConnectProgress::Finished(outcome) => return outcome,
                ConnectProgress::Ongoing(connecting, action) => {
                    let event = self.answer(action);
                    assert!(connecting.awaits(&event));
                    progress = connecting.step(event);
                }
            }
        }
    }

    /// The path of the ephemeral socket that was bound.
    fn ephemeral(&self) -> String {
        let bind = self.log.iter().find(|entry| entry.starts_with("bind "));
        bind.unwrap()[5..].to_string()
    }
}

fn half_second() -> LivenessTimeout {
    LivenessTimeout::new(0, 500_000_000).unwrap()
}

fn test_service() -> DeclaredService {
    DeclaredService {
        socket_name: b"test.sock".to_vec(),
    }
}

fn connect(world: &mut World) -> Result<u32, ServiceError<&'static str>> {
    let reified: ReifiedService<'_, DeclaredService, Numbers> = test_service().reify(b"/run");
    world.drive(reified.connect(half_second()))
}

#[test]
fn running_service_is_connected_to_without_starting_it() {
    let mut world = willing();
    world.connects = vec![Ok(1)];
    world.wraps = vec![Ok(2)];
    assert_eq!(connect(&mut world), Ok(2));
    assert_eq!(world.log, vec!["connect /run/test.sock", "wrap 1"]);
}

#[test]
fn stopped_service_is_started_on_demand() {
    let mut world = willing();
    assert_eq!(connect(&mut world), Ok(12));
    let path = world.ephemeral();
    assert_eq!(
        world.log,
        vec![
            "connect /run/test.sock".to_string(),
            format!("bind {path}"),
            "spawn service --server".to_string(),
            format!("tell {path}"),
            "accept 13 within 0s 500000000ns".to_string(),
            "shutdown 15".to_string(),
            "close 13".to_string(),
            format!("remove {path}"),
            "hand over 14".to_string(),
            "connect /run/test.sock".to_string(),
            "wrap 11".to_string(),
        ]
    );
}

#[test]
fn ephemeral_socket_is_in_the_directory_for_temporary_files() {
    let mut world = willing();
    assert_eq!(connect(&mut world), Ok(12));
    let path = world.ephemeral();
    let digits = path
        .strip_prefix("/tmp/temp-")
        .unwrap()
        .strip_suffix(".sock")
        .unwrap();
    assert_eq!(digits.len(), 16);
    assert!(digits
        .chars()
        .all(|c| matches!(c, '0'..='9' | 'a'..='f')));
}

#[test]
fn service_whose_stream_cannot_be_wrapped_is_not_started() {
    let mut world = willing();
    world.connects = vec![Ok(1), Ok(11)];
    world.wraps = vec![Err("bad greeting"), Ok(12)];
    assert_eq!(connect(&mut world), Err(ServiceError::Io("bad greeting")));
    assert_eq!(world.log, vec!["connect /run/test.sock", "wrap 1"]);
}

#[test]
fn connection_that_is_given_up_hands_back_what_it_has_to_clean_up() {
    // The path that each stage hands back, given up before its action is answered.
    let mut handed_back: Vec<Option<String>> = vec![];
    let mut ephemeral = String::new();
    for answers in 0..11 {
        let reified: ReifiedService<'_, DeclaredService, Numbers> = test_service().reify(b"/run");
        let mut world = willing();
        let mut progress: Progress<'_> = reified.connect(half_second());
        for _ in 0..answers {
            progress = match progress {
                ConnectProgress::Ongoing(connecting, action) => {
                    connecting.step(world.answer(action))
                }
                finished => finished,
            };
        }
        match progress {
            ConnectProgress::Ongoing(connecting, action) => {
                if let ConnectAction::Create(CreateAction::Bind { path }) = &action {
                    ephemeral = text(path);
                } else if world.log.iter().any(|entry| entry.starts_with("bind ")) {
                    ephemeral = world.ephemeral();
                }
                let path = connecting.give_up();
                let held = path.map(|path| text(path.as_ref()));
                assert!(held.is_none() || held.as_deref() == Some(ephemeral.as_str()));
                handed_back.push(held.map(|_| "ephemeral".to_string()));
            }
            ConnectProgress::Finished(outcome) => panic!("finished with {outcome:?}"),
        }
    }
    let held = Some("ephemeral".to_string());
    assert_eq!(
        handed_back,
        vec![
            None,         // connecting
            None,         // looking for a place
            held.clone(), // binding
            held.clone(), // starting
            held.clone(), // accepting
            held.clone(), // shutting down
            held.clone(), // closing
            None,         // removing
            None,         // handing over
            None,         // connecting again
            None,         // wrapping
        ]
    );
}

#[test]
fn executor_prefix_goes_before_the_command() {
    let prefix = vec![b"/usr/bin/env".to_vec(), b"-i".to_vec()];
    let mut world = willing();
    let reified: ReifiedService<'_, DeclaredService, Numbers> =
        test_service().reify_with_executor(b"/run", &prefix);
    assert_eq!(world.drive(reified.connect(half_second())), Ok(12));
    assert!(world
        .log
        .contains(&"spawn /usr/bin/env -i service --server".to_string()));
}

#[test]
fn failure_to_bind_the_ephemeral_socket_is_the_outcome() {
    let mut world = willing();
    world.bind = Err("read-only");
    assert_eq!(connect(&mut world), Err(ServiceError::Io("read-only")));
    let path = world.ephemeral();
    assert_eq!(
        world.log[1..],
        [format!("bind {path}"), format!("remove {path}")]
    );
}

#[test]
fn failure_to_start_the_service_is_the_outcome() {
    let mut world = willing();
    world.spawn = Err("no such program");
    assert_eq!(connect(&mut world), Err(ServiceError::Io("no such program")));
    let path = world.ephemeral();
    assert_eq!(
        world.log[4..],
        [format!("remove {path}"), "close 13".to_string()]
    );
}

#[test]
fn silence_is_a_timeout() {
    let mut world = willing();
    world.accept = None;
    let outcome = connect(&mut world);
    assert_eq!(outcome, Err(ServiceError::TimedOut(half_second())));
    assert_eq!(
        timed_out_message(half_second()),
        "Timed out waiting for service to become live after 500ms"
    );
    let path = world.ephemeral();
    assert_eq!(
        world.log[5..],
        [format!("remove {path}"), "close 13".to_string()]
    );
}

#[test]
fn failure_to_accept_the_ping_is_the_outcome() {
    let mut world = willing();
    world.accept = Some(Err("interrupted"));
    assert_eq!(connect(&mut world), Err(ServiceError::Io("interrupted")));
    let path = world.ephemeral();
    assert_eq!(
        world.log[5..],
        [format!("remove {path}"), "close 13".to_string()]
    );
}

#[test]
fn failure_to_shut_the_ping_down_is_the_outcome() {
    let mut world = willing();
    world.shutdown = Err("not connected");
    assert_eq!(connect(&mut world), Err(ServiceError::Io("not connected")));
    let path = world.ephemeral();
    assert_eq!(
        world.log[6..],
        [format!("remove {path}"), "close 13".to_string()]
    );
}

#[test]
fn failure_to_hand_the_process_over_is_the_outcome() {
    let mut world = willing();
    world.hand_over = Err("no room");
    assert_eq!(connect(&mut world), Err(ServiceError::Io("no room")));
    assert_eq!(world.log.last().unwrap(), "hand over 14");
}

#[test]
fn failure_of_the_second_attempt_is_the_outcome() {
    let mut world = willing();
    world.connects = vec![Err("no such file"), Err("refused")];
    assert_eq!(connect(&mut world), Err(ServiceError::Io("refused")));

    let mut world = willing();
    world.wraps = vec![Err("bad greeting")];
    assert_eq!(connect(&mut world), Err(ServiceError::Io("bad greeting")));
}

#[test]
fn connecting_to_running_service_only_attempts() {
    let reified: ReifiedService<'_, DeclaredService, Numbers> = test_service().reify(b"/run/");
    let mut world = willing();
    let mut progress: AttemptProgress<Vec<u8>, u32, u32, &'static str> =
        reified.connect_to_running();
    let outcome = loop {
        match progress {
            AttemptProgress::Finished(outcome) => break outcome,
            AttemptProgress::Ongoing(stage, action) => {
                let event = world.attempt(action);
                assert!(stage.awaits(&event));
                progress = stage.step(event);
            }
        }
    };
    assert_eq!(outcome, Err("no such file"));
    assert_eq!(world.log, vec!["connect /run/test.sock"]);
}

#[test]
fn answers_to_other_actions_are_not_waited_for() {
    let reified: ReifiedService<'_, DeclaredService, Numbers> = test_service().reify(b"/run");
    let progress: Progress<'_> = reified.connect(half_second());
    match progress {
        ConnectProgress::Ongoing(connecting, _) => {
            let early: ConnectEvent<Vec<u8>, u32, u32, u32, u32, u32, &'static str> =
                ConnectEvent::Spawned(Ok(1));
            assert!(!connecting.awaits(&early));
            let early: ConnectEvent<Vec<u8>, u32, u32, u32, u32, u32, &'static str> =
                ConnectEvent::Attempt(AttemptEvent::Wrapped(Ok(1)));
            assert!(!connecting.awaits(&early));
        }
        ConnectProgress::Finished(_) => panic!("nothing was answered yet"),
    }
}

/// A world in which nothing listens and no program exists.
fn hostile() -> World {
    let mut world = willing();
    world.connects = vec![Err("no such file")];
    world.spawn = Err("no such program");
    world
}

#[test]
fn service_declaration_and_start_fail_test() {
    let tmpdir = b"/tmp";
    let liveness_timeout = LivenessTimeout::new(0, 50_000_000).unwrap();
    let service = DeclaredService {
        socket_name: b"test-service.sock".to_vec(),
    };
    let start = DeclaredCommand {
        command: b"sfdjfkosdgjsadgjlas".to_vec(),
        args: vec![],
    };
    assert_eq!(
        start.run_service_command_raw(None, None).program,
        b"sfdjfkosdgjsadgjlas"
    );
    let reified: ReifiedService<'_, DeclaredService, Numbers> = service.reify(tmpdir);
    assert!(hostile().drive(reified.connect(liveness_timeout)).is_err());

    // service without a starting command
    let second = DeclaredService {
        socket_name: b"test-service-2.sock".to_vec(),
    };
    assert_eq!(second.socket_name, b"test-service-2.sock");
}

#[test]
fn service_bundle_macro_test() {
    let tmpdir = b"/tmp";
    let liveness_timeout = LivenessTimeout::new(0, 50_000_000).unwrap();
    let bundle = BundleContext::new(tmpdir);
    let echo = DeclaredCommand {
        command: b"echo-executable-wekdasjkfgnjsd".to_vec(),
        args: vec![b"--and".to_vec(), b"--some".to_vec(), b"--args".to_vec()],
    }
    .run_service_command_raw(None, None);
    assert_eq!(echo.program, b"echo-executable-wekdasjkfgnjsd");
    assert_eq!(
        echo.args,
        vec![b"--and".to_vec(), b"--some".to_vec(), b"--args".to_vec()]
    );
    let echo_service: ReifiedService<'_, DeclaredService, Numbers> = bundle.reify(DeclaredService {
        socket_name: b"echo-service.sock".to_vec(),
    });
    assert!(hostile().drive(echo_service.connect(liveness_timeout)).is_err());
    let hello = DeclaredCommand {
        command: b"hello-executable-fjskldgkjsagd".to_vec(),
        args: vec![b"a".to_vec()],
    }
    .run_service_command_raw(None, None);
    assert_eq!(hello.program, b"hello-executable-fjskldgkjsagd");
    assert_eq!(hello.args, vec![b"a".to_vec()]);
    let hello_service: ReifiedService<'_, DeclaredService, Numbers> =
        bundle.reify(DeclaredService {
            socket_name: b"hello-service.sock".to_vec(),
        });
    assert!(hostile().drive(hello_service.connect(liveness_timeout)).is_err());
}

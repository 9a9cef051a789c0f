use std::borrow::Borrow;
use std::path::Path;
use suss::liveness::{retrieve_liveness_path, set_liveness_environment, LIVENESS_ENV_VAR};
use suss::path::join;
use suss::socket_shims::{default_runtime, Runtime};
use suss::sockpath::{get_random_sockpath, numbered_sockpath};
use suss::timefut::{with_timeout, Timed};
use suss::timeout::{timed_out_after, timed_out_message};
use suss::{
    BundleContext, CleanablePathBuf, DeclaredCommand, DeclaredService, EnvChange, LivenessTimeout,
    ReifiedService, ServiceBundle, ServiceCommand, UnixSocketInterface,
};

struct Numbers;

impl UnixSocketInterface for Numbers {
    type UnixStream = u32;
    type UnixListener = u32;
    type SocketAddr = u32;
}

#[test]
fn names_are_joined_to_directories() {
    assert_eq!(
        join(b"/var/run", b"hello-service.sock"),
        b"/var/run/hello-service.sock"
    );
    assert_eq!(join(b"/var/run/", b"a.sock"), b"/var/run/a.sock");
    assert_eq!(join(b"", b"a.sock"), b"a.sock");
    assert_eq!(join(b"/var/run", b"/elsewhere.sock"), b"/elsewhere.sock");
    assert_eq!(join(b"/var/run", b""), b"/var/run/");
}

#[test]
fn joining_agrees_with_the_standard_library() {
    let parts = ["", "/", "a", "a/", "/a", "/a/", "a/b", "//", "a//", ".", "..", "a b", "\u{e4}"];
    for base in parts {
        for name in parts {
            let expected = Path::new(base).join(name);
            assert_eq!(
                join(base.as_bytes(), name.as_bytes()),
                expected.to_str().unwrap().as_bytes()
            );
        }
    }
}

#[test]
fn ephemeral_paths_hold_their_number() {
    for number in [0, 1, 9, 10, 255, 0x0123_4567_89ab_cdef, u64::MAX - 1, u64::MAX] {
        let expected = format!("/tmp/temp-{:016x}.sock", number);
        assert_eq!(numbered_sockpath(b"/tmp", number), expected.into_bytes());
    }
    assert_eq!(
        numbered_sockpath(b"/tmp/", 0xdead_beef),
        b"/tmp/temp-00000000deadbeef.sock"
    );
}

#[test]
fn random_paths_differ() {
    let mut seen: Vec<Vec<u8>> = vec![];
    for _ in 0..64 {
        let path = get_random_sockpath(b"/tmp");
        assert_eq!(path.len(), "/tmp/temp-0123456789abcdef.sock".len());
        assert!(!seen.contains(&path));
        seen.push(path);
    }
}

#[test]
fn cleanable_path_keeps_its_path() {
    let cleanable = CleanablePathBuf::new(b"/run/a.sock".to_vec());
    let as_ref: &[u8] = cleanable.as_ref();
    assert_eq!(as_ref, b"/run/a.sock");
    let borrowed: &[u8] = cleanable.borrow();
    assert_eq!(borrowed, b"/run/a.sock");
    assert_eq!(CleanablePathBuf::from(b"/run/a.sock".to_vec()), cleanable);
}

#[test]
fn liveness_path_is_passed_in_the_environment() {
    assert_eq!(LIVENESS_ENV_VAR, "SUSS_LIVENESS_SOCKET_PATH");
    let mut command = ServiceCommand {
        program: b"p".to_vec(),
        args: vec![],
        env: vec![],
    };
    // The command is handed back, so that changes can follow each other.
    let same = set_liveness_environment(&mut command, Some(b"/tmp/l.sock"));
    set_liveness_environment(same, None);
    assert_eq!(
        command.env,
        vec![
            EnvChange::Assign {
                name: LIVENESS_ENV_VAR.to_string(),
                value: b"/tmp/l.sock".to_vec(),
            },
            EnvChange::Remove {
                name: LIVENESS_ENV_VAR.to_string(),
            },
        ]
    );
    assert_eq!(command.program, b"p");
}

#[test]
fn retrieved_liveness_path_is_cleared() {
    let clear = EnvChange::Remove {
        name: LIVENESS_ENV_VAR.to_string(),
    };
    let (path, change) = retrieve_liveness_path(Some(b"/tmp/l.sock".to_vec()));
    assert_eq!(path, Some(b"/tmp/l.sock".to_vec()));
    assert_eq!(change, clear);
    let (path, change) = retrieve_liveness_path(None);
    assert_eq!(path, None);
    assert_eq!(change, clear);
}

#[test]
fn command_line_is_prefix_then_command_then_args() {
    let declared = DeclaredCommand {
        command: b"my-echo-service".to_vec(),
        args: vec![b"--server".to_vec()],
    };
    let plain = declared.run_service_command_raw(None, Some(b"/l"));
    assert_eq!(plain.program, b"my-echo-service");
    assert_eq!(plain.args, vec![b"--server".to_vec()]);
    assert_eq!(
        plain.env,
        vec![EnvChange::Assign {
            name: LIVENESS_ENV_VAR.to_string(),
            value: b"/l".to_vec(),
        }]
    );

    let empty: Vec<Vec<u8>> = vec![];
    let same = declared.run_service_command_raw(Some(&empty), Some(b"/l"));
    assert_eq!(same, plain);

    let prefix = vec![b"/usr/bin/env".to_vec(), b"-S".to_vec()];
    let prefixed = declared.run_service_command_raw(Some(&prefix), None);
    assert_eq!(prefixed.program, b"/usr/bin/env");
    assert_eq!(
        prefixed.args,
        vec![
            b"-S".to_vec(),
            b"my-echo-service".to_vec(),
            b"--server".to_vec()
        ]
    );
    assert_eq!(
        prefixed.env,
        vec![EnvChange::Remove {
            name: LIVENESS_ENV_VAR.to_string(),
        }]
    );
}

#[test]
fn timeouts_are_less_than_a_second_past_the_seconds() {
    let timeout = LivenessTimeout::new(3, 999_999_999).unwrap();
    assert_eq!(timeout.as_secs(), 3);
    assert_eq!(timeout.subsec_nanos(), 999_999_999);
    assert_eq!(LivenessTimeout::new(3, 1_000_000_000), None);
}

#[test]
fn timeout_message_names_the_time() {
    assert_eq!(
        timed_out_after("a while"),
        "Timed out waiting for service to become live after a while"
    );
    for (secs, nanos, text) in [
        (0, 0, "0s"),
        (9420, 0, "2h 37m"),
        (0, 32_000_000, "32ms"),
        (1, 500_000_000, "1s 500ms"),
    ] {
        assert_eq!(
            timed_out_message(LivenessTimeout::new(secs, nanos).unwrap()),
            format!("Timed out waiting for service to become live after {text}")
        );
    }
}

#[test]
fn output_is_preferred_to_the_timeout() {
    assert_eq!(with_timeout(Some(5), false), Timed::Ready(Some(5)));
    assert_eq!(with_timeout(Some(5), true), Timed::Ready(Some(5)));
    assert_eq!(with_timeout::<u32>(None, true), Timed::Ready(None));
    assert_eq!(with_timeout::<u32>(None, false), Timed::Pending);
}

#[test]
fn runtimes_have_a_priority() {
    assert_eq!(default_runtime(true, true), Runtime::AsyncStd);
    assert_eq!(default_runtime(true, false), Runtime::AsyncStd);
    assert_eq!(default_runtime(false, true), Runtime::Tokio);
    assert_eq!(default_runtime(false, false), Runtime::StdThreadpool);
}

#[test]
fn bundles_share_their_context() {
    let service = || DeclaredService {
        socket_name: b"a.sock".to_vec(),
    };
    let plain = BundleContext::new(b"/run");
    let reified: ReifiedService<'_, DeclaredService, Numbers> = plain.reify(service());
    assert_eq!(reified.base_context_directory(), b"/run");
    assert_eq!(reified.executor_prefix(), None);
    assert_eq!(reified.bare_service(), &service());

    let prefix = vec![b"env".to_vec()];
    let bundle = BundleContext::with_executor_prefix(b"/run", &prefix);
    let reified: ReifiedService<'_, DeclaredService, Numbers> = bundle.reify(service());
    assert_eq!(reified.base_context_directory(), b"/run");
    assert_eq!(reified.executor_prefix(), Some(prefix.as_slice()));
}

use world_monitor::paths::SidecarPaths;
use world_monitor::supervisor::{
    runtime_resolved_message, started_message, starting_message, stopped_message, StartDecision,
    Supervisor,
};

fn paths() -> SidecarPaths {
    SidecarPaths {
        script_path: "/opt/app/resources/sidecar/local-api-server.mjs".to_string(),
        resource_root: "/opt/app/resources".to_string(),
    }
}

#[test]
fn start_with_missing_script_names_the_path_and_leaves_slot_empty() {
    let sup = Supervisor::new();
    let decision = sup.plan_start(&paths(), false, Some("/usr/bin/node".to_string()));
    match decision {
        StartDecision::MissingScript { message } => {
            assert_eq!(
                message,
                "Local API sidecar script missing at /opt/app/resources/sidecar/local-api-server.mjs"
            );
        }
        _ => panic!("expected a missing-script failure"),
    }
    assert!(!sup.is_running());
}

#[test]
fn start_without_runtime_names_the_override_variable() {
    let sup = Supervisor::new();
    let decision = sup.plan_start(&paths(), true, None);
    match decision {
        StartDecision::RuntimeNotFound { message } => {
            assert_eq!(
                message,
                "Node.js executable not found. Install Node 18+ or set LOCAL_API_NODE_BIN"
            );
        }
        _ => panic!("expected a runtime-not-found failure"),
    }
}

#[test]
fn successful_start_plans_the_exact_spawn() {
    let sup = Supervisor::new();
    let decision = sup.plan_start(&paths(), true, Some("/usr/bin/node".to_string()));
    match decision {
        StartDecision::Spawn { plan } => {
            assert_eq!(plan.program, "/usr/bin/node");
            assert_eq!(plan.script_arg, "/opt/app/resources/sidecar/local-api-server.mjs");
            let env: Vec<(&str, &str)> =
                plan.env.iter().map(|(k, v)| (k.as_str(), v.as_str())).collect();
            assert_eq!(
                env,
                vec![
                    ("LOCAL_API_PORT", "46123"),
                    ("LOCAL_API_RESOURCE_DIR", "/opt/app/resources"),
                    ("LOCAL_API_MODE", "tauri-sidecar"),
                ]
            );
        }
        _ => panic!("expected a spawn plan"),
    }
}

#[test]
fn start_is_idempotent_while_running() {
    let mut sup = Supervisor::new();
    sup.note_spawned(4242);
    assert!(sup.is_running());
    for _ in 0..3 {
        let decision = sup.plan_start(&paths(), true, Some("/usr/bin/node".to_string()));
        assert!(matches!(decision, StartDecision::AlreadyRunning));
    }
    assert_eq!(sup.child_pid(), Some(4242));
}

#[test]
fn stop_on_empty_slot_is_a_silent_noop() {
    let mut sup = Supervisor::new();
    assert!(!sup.stop());
    assert!(!sup.is_running());
    assert_eq!(sup.child_pid(), None);
}

#[test]
fn supervisory_event_messages_are_exact() {
    assert_eq!(
        starting_message("/r/sidecar/local-api-server.mjs", "/r", "/logs/local-api.log"),
        "starting local API sidecar script=/r/sidecar/local-api-server.mjs resource_root=/r log=/logs/local-api.log"
    );
    assert_eq!(runtime_resolved_message("/usr/bin/node"), "resolved node binary=/usr/bin/node");
    assert_eq!(started_message(4242), "local API sidecar started pid=4242");
    assert_eq!(stopped_message(), "local API sidecar stopped");
}

#[test]
fn failed_start_then_fixed_start_then_stop() {
    let mut sup = Supervisor::new();

    // The script is missing: the attempt fails and the slot stays empty.
    let decision = sup.plan_start(&paths(), false, Some("/usr/bin/node".to_string()));
    assert!(matches!(decision, StartDecision::MissingScript { .. }));
    assert!(!sup.is_running());

    // After the path is fixed the same request yields a spawn plan, and
    // recording the spawn populates the slot.
    let decision = sup.plan_start(&paths(), true, Some("/usr/bin/node".to_string()));
    assert!(matches!(decision, StartDecision::Spawn { .. }));
    sup.note_spawned(31337);
    assert_eq!(sup.child_pid(), Some(31337));

    // Stop reports the running child and empties the slot again.
    assert!(sup.stop());
    assert!(!sup.is_running());
    assert!(!sup.stop());
}

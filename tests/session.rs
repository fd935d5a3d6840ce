use gecko_android::activity::{activity_from_line, resolve_activity};
use gecko_android::config::{generate_config, CONFIG_FILE_HEADING};
use gecko_android::error::AndroidError;
use gecko_android::handler::{
    AndroidHandler, AndroidOptions, AndroidProcess, DeviceCommand, TeardownLog, PUSH_MODE,
};
use gecko_android::paths::{config_path, decimal_string, profile_path, TARGET_PORT};
use mozdevice::{AndroidStorage, Device, Host, UnixPathBuf};
use serde_yaml::Value;

fn options(package: &str, activity: Option<&str>, intent: Option<Vec<&str>>) -> AndroidOptions {
    AndroidOptions {
        package: package.to_string(),
        activity: activity.map(|a| a.to_string()),
        device_serial: None,
        intent_arguments: intent.map(|v| v.into_iter().map(|s| s.to_string()).collect()),
    }
}

fn fake_device() -> Device {
    Device {
        host: Host::default(),
        serial: "emulator-5554".to_string(),
        adbd_root: false,
        is_rooted: false,
        su_0_root: false,
        su_c_root: false,
        run_as_package: None,
        storage: AndroidStorage::App,
        tempfile: UnixPathBuf::from("/data/local/tmp"),
    }
}

fn connected(package: &str) -> AndroidHandler {
    let mut h = AndroidHandler::new(&options(package, Some(".App"), None));
    let fwd = h.forward(4444);
    assert_eq!(fwd, DeviceCommand::ForwardPort(4444, TARGET_PORT));
    h.connect(fake_device(), None).unwrap();
    h
}

fn pairs(v: &[(&str, &str)]) -> Vec<(String, String)> {
    v.iter().map(|(k, v)| (k.to_string(), v.to_string())).collect()
}

/// The YAML part of a document, parsed.
fn parse(doc: &str) -> Value {
    assert!(doc.starts_with(CONFIG_FILE_HEADING));
    serde_yaml::from_str(&doc[CONFIG_FILE_HEADING.len()..]).unwrap()
}

fn env_of(doc: &Value) -> Vec<(String, String)> {
    doc.get("env")
        .unwrap()
        .as_mapping()
        .unwrap()
        .iter()
        .map(|(k, v)| (k.as_str().unwrap().to_string(), v.as_str().unwrap().to_string()))
        .collect()
}

fn args_of(doc: &Value) -> Vec<String> {
    doc.get("args")
        .unwrap()
        .as_sequence()
        .unwrap()
        .iter()
        .map(|v| v.as_str().unwrap().to_string())
        .collect()
}

#[test]
fn profile_path_is_per_package() {
    assert_eq!(profile_path("org.mozilla.geckoview_example"), "/mnt/sdcard/org.mozilla.geckoview_example-automation-profile");
    assert_eq!(profile_path(""), "/mnt/sdcard/-automation-profile");
    let h = AndroidHandler::new(&options("x", None, None));
    assert_eq!(h.profile, "/mnt/sdcard/x-automation-profile");
    assert!(h.process.is_none());
}

#[test]
fn config_path_is_per_package() {
    assert_eq!(config_path("x"), "/data/local/tmp/x-automation-config.yaml");
}

#[test]
fn operations_need_a_connection() {
    let h = AndroidHandler::new(&options("x", None, None));
    assert!(matches!(h.prepare("/tmp/profile", &pairs(&[])), Err(AndroidError::NotConnected)));
    assert!(matches!(h.launch(), Err(AndroidError::NotConnected)));
    assert!(matches!(h.force_stop(), Err(AndroidError::NotConnected)));
}

#[test]
fn config_document_with_one_pair() {
    let doc = generate_config("/mnt/sdcard/x-automation-profile", &pairs(&[("FOO", "bar")])).unwrap();
    let v = parse(&doc);
    assert_eq!(
        env_of(&v),
        pairs(&[
            ("FOO", "bar"),
            ("MOZ_CRASHREPORTER", "1"),
            ("MOZ_CRASHREPORTER_NO_REPORT", "1"),
            ("MOZ_CRASHREPORTER_SHUTDOWN", "1"),
        ])
    );
    assert_eq!(args_of(&v), vec!["-marionette", "-profile", "/mnt/sdcard/x-automation-profile"]);
}

#[test]
fn config_document_of_handler_uses_its_profile() {
    let h = AndroidHandler::new(&options("x", None, None));
    let doc = h.generate_config_file(&pairs(&[])).unwrap();
    let v = parse(&doc);
    assert_eq!(args_of(&v), vec!["-marionette", "-profile", "/mnt/sdcard/x-automation-profile"]);
    assert_eq!(env_of(&v).len(), 3);
}

#[test]
fn fixed_keys_override_caller_values() {
    let doc = generate_config("p", &pairs(&[("MOZ_CRASHREPORTER", "0"), ("A", "b")])).unwrap();
    let env = env_of(&parse(&doc));
    assert_eq!(
        env,
        pairs(&[
            ("MOZ_CRASHREPORTER", "1"),
            ("A", "b"),
            ("MOZ_CRASHREPORTER_NO_REPORT", "1"),
            ("MOZ_CRASHREPORTER_SHUTDOWN", "1"),
        ])
    );
}

#[test]
fn handler_document_keeps_fixed_key_once() {
    let h = AndroidHandler::new(&options("x", None, None));
    let doc = h.generate_config_file(&pairs(&[("MOZ_CRASHREPORTER", "0")])).unwrap();
    let env = env_of(&parse(&doc));
    assert_eq!(env.iter().filter(|(k, _)| k == "MOZ_CRASHREPORTER").count(), 1);
    assert_eq!(env[0], ("MOZ_CRASHREPORTER".to_string(), "1".to_string()));
    assert_eq!(env.len(), 3);
}

#[test]
fn equal_inputs_give_equal_documents() {
    let a = generate_config("p", &pairs(&[("K", "v")])).unwrap();
    let b = generate_config("p", &pairs(&[("K", "v")])).unwrap();
    assert_eq!(a, b);
}

#[test]
fn later_caller_pair_wins() {
    let doc = generate_config("p", &pairs(&[("A", "1x"), ("B", "2"), ("A", "3")])).unwrap();
    let env = env_of(&parse(&doc));
    assert_eq!(&env[..2], &pairs(&[("A", "3"), ("B", "2")])[..]);
}

#[test]
fn activity_resolution() {
    assert_eq!(resolve_activity("com.example", "com.example/.Main\n").unwrap(), ".Main");
    match resolve_activity("com.example", "com.example\n") {
        Err(AndroidError::ActivityNotFound(p)) => assert_eq!(p, "com.example"),
        other => panic!("unexpected {:?}", other),
    }
}

#[test]
fn activity_resolution_edges() {
    assert_eq!(resolve_activity("p", "p/.A/extra  \n").unwrap(), ".A");
    assert_eq!(resolve_activity("p", "p/").unwrap(), "");
    assert_eq!(activity_from_line("p", "/x").unwrap(), "x");
    assert!(matches!(resolve_activity("p", ""), Err(AndroidError::ActivityNotFound(_))));
    assert!(matches!(resolve_activity("p", "   \n"), Err(AndroidError::ActivityNotFound(_))));
}

#[test]
fn connect_with_configured_activity() {
    let mut h = AndroidHandler::new(&options("x", Some(".App"), None));
    assert_eq!(h.activity_query(), None);
    h.forward(5555);
    h.connect(fake_device(), None).unwrap();
    let p = h.process.as_ref().unwrap();
    assert_eq!(p.package, "x");
    assert_eq!(p.activity, ".App");
    assert_eq!(h.host_port, 5555);
    assert_eq!(h.target_port, 2829);
}

#[test]
fn connect_resolves_activity() {
    let mut h = AndroidHandler::new(&options("com.example", None, None));
    assert_eq!(
        h.activity_query().unwrap(),
        "cmd package resolve-activity --brief com.example | tail -n 1"
    );
    h.connect(fake_device(), Some("com.example/.Main\n".to_string())).unwrap();
    assert_eq!(h.process.as_ref().unwrap().activity, ".Main");
}

#[test]
fn connect_fails_without_activity() {
    let mut h = AndroidHandler::new(&options("com.example", None, None));
    match h.connect(fake_device(), Some("No activity found\n".to_string())) {
        Err(AndroidError::ActivityNotFound(p)) => assert_eq!(p, "com.example"),
        other => panic!("unexpected {:?}", other),
    }
    assert!(h.process.is_none());
    assert!(h.teardown().is_empty());
}

#[test]
fn prepare_commands() {
    let h = connected("x");
    let cmds = h.prepare("/tmp/local-profile", &pairs(&[("FOO", "bar")])).unwrap();
    let doc = h.generate_config_file(&pairs(&[("FOO", "bar")])).unwrap();
    assert_eq!(
        cmds,
        vec![
            DeviceCommand::ClearAppData("x".to_string()),
            DeviceCommand::Shell("pm grant x android.permission.READ_EXTERNAL_STORAGE".to_string()),
            DeviceCommand::Shell("pm grant x android.permission.WRITE_EXTERNAL_STORAGE".to_string()),
            DeviceCommand::Shell("rm -rf /mnt/sdcard/x-automation-profile".to_string()),
            DeviceCommand::PushDir(
                "/tmp/local-profile".to_string(),
                "/mnt/sdcard/x-automation-profile".to_string(),
                0o777
            ),
            DeviceCommand::PushFile(doc, "/data/local/tmp/x-automation-config.yaml".to_string(), PUSH_MODE),
            DeviceCommand::Shell("chmod a+rw /data/local/tmp/x-automation-config.yaml".to_string()),
            DeviceCommand::Shell("am set-debug-app --persistent x".to_string()),
        ]
    );
}

#[test]
fn launch_command_appends_marionette_arguments() {
    let h = connected("x");
    assert_eq!(
        h.launch().unwrap(),
        DeviceCommand::Launch(
            "x".to_string(),
            ".App".to_string(),
            vec![
                "--es".to_string(),
                "args".to_string(),
                "-marionette -profile /mnt/sdcard/x-automation-profile".to_string()
            ]
        )
    );
    let mut h2 = AndroidHandler::new(&options("y", Some(".B"), Some(vec!["--ez", "flag", "true"])));
    h2.connect(fake_device(), None).unwrap();
    match h2.launch().unwrap() {
        DeviceCommand::Launch(_, _, args) => assert_eq!(
            args,
            vec!["--ez", "flag", "true", "--es", "args", "-marionette -profile /mnt/sdcard/y-automation-profile"]
        ),
        other => panic!("unexpected {:?}", other),
    }
}

#[test]
fn force_stop_command() {
    let h = connected("x");
    assert_eq!(h.force_stop().unwrap(), DeviceCommand::ForceStop("x".to_string()));
}

#[test]
fn teardown_of_unconnected_session_is_empty() {
    let mut h = AndroidHandler::new(&options("x", None, None));
    h.forward(4444);
    assert!(h.teardown().is_empty());
}

#[test]
fn teardown_tries_both_steps_when_unforward_fails() {
    let h = connected("x");
    let plan = h.teardown();
    assert_eq!(
        plan,
        vec![
            DeviceCommand::Shell("am clear-debug-app x".to_string()),
            DeviceCommand::KillForwardPort(4444),
        ]
    );
    let report = h.teardown_report(&vec![None, Some("device offline".to_string())]);
    assert_eq!(
        report,
        vec![
            TeardownLog { failed: false, message: "Disabled reading from configuration file".to_string() },
            TeardownLog {
                failed: true,
                message: "Android port forward (4444 -> 2829) failed to stop: device offline".to_string()
            },
        ]
    );
    let report = h.teardown_report(&vec![Some("denied".to_string()), None]);
    assert_eq!(
        report,
        vec![
            TeardownLog { failed: true, message: "Failed disabling from configuration file: denied".to_string() },
            TeardownLog { failed: false, message: "Android port forward (4444 -> 2829) stopped".to_string() },
        ]
    );
}

#[test]
fn teardown_report_of_unconnected_session_is_empty() {
    let h = AndroidHandler::new(&options("x", None, None));
    assert!(h.teardown_report(&vec![]).is_empty());
}

#[test]
fn error_messages() {
    assert_eq!(
        AndroidError::ActivityNotFound("p".to_string()).message(),
        "Activity not found for package 'p'"
    );
    assert_eq!(AndroidError::NotConnected.message(), "Not connected to any Android device");
    assert_eq!(
        AndroidError::Device(mozdevice::DeviceError::Adb("boom".to_string())).message(),
        "boom"
    );
    let io = std::io::Error::new(std::io::ErrorKind::Other, "disk");
    assert_eq!(AndroidError::IO(io).message(), "disk");
    let e: AndroidError = mozdevice::DeviceError::MissingPackage.into();
    assert!(matches!(e, AndroidError::Device(_)));
}

#[test]
fn launch_failure_message_names_package_and_activity() {
    let p = AndroidProcess::new(fake_device(), "x".to_string(), ".App".to_string()).unwrap();
    assert_eq!(p.launch_failure_message("timeout"), "Could not launch Android x/.App: timeout");
}

#[test]
fn ports_in_decimal() {
    assert_eq!(decimal_string(0), "0");
    assert_eq!(decimal_string(7), "7");
    assert_eq!(decimal_string(10), "10");
    assert_eq!(decimal_string(2829), "2829");
    assert_eq!(decimal_string(65535), "65535");
}

#[test]
fn activity_resolution_trims_unicode_whitespace() {
    assert_eq!(resolve_activity("p", "p/.A\u{3000}\u{a0}\t\r\n").unwrap(), ".A");
    assert_eq!(resolve_activity("p", "p/.A\u{200b}").unwrap(), ".A\u{200b}");
}

#[test]
fn document_fields_are_env_then_args() {
    let doc = generate_config("p", &pairs(&[])).unwrap();
    let body = &doc[CONFIG_FILE_HEADING.len()..];
    let env_at = body.find("env:").unwrap();
    let args_at = body.find("args:").unwrap();
    assert!(env_at < args_at);
}

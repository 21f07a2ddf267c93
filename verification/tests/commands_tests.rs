use bjig_controller::commands::module::DEFAULT_RESPONSE_TIMEOUT_SECS;
use bjig_controller::commands::monitor::{send_outcome, task_failure, CONTROL_QUEUE_CAPACITY};
use bjig_controller::commands::ControlMessage;
use bjig_controller::executor::parse_json;
use bjig_controller::{BjigController, BjigError, Environment, ScanModeType};

fn controller() -> BjigController {
    BjigController::new("./bin/bjig", true).unwrap().with_port("/dev/ttyACM0").with_baud(38400)
}

fn device(words: &[&str]) -> Vec<String> {
    let mut args: Vec<String> =
        ["--port", "/dev/ttyACM0", "--baud", "38400"].iter().map(|w| w.to_string()).collect();
    args.extend(words.iter().map(|w| w.to_string()));
    args
}

#[test]
fn router_commands_without_parameters() {
    let bjig = controller();
    let router = bjig.router();
    let env = Environment::empty();
    assert_eq!(router.start_args(None, None, &env).unwrap(), device(&["router", "start"]));
    assert_eq!(router.stop_args(None, None, &env).unwrap(), device(&["router", "stop"]));
    assert_eq!(
        router.get_version_args(None, None, &env).unwrap(),
        device(&["router", "get-version"])
    );
    assert_eq!(
        router.get_scan_mode_args(None, None, &env).unwrap(),
        device(&["router", "get-scan-mode"])
    );
    assert_eq!(
        router.keep_alive_args(None, None, &env).unwrap(),
        device(&["router", "keep-alive"])
    );
}

#[test]
fn router_commands_take_port_and_baud_overrides() {
    let bjig = controller();
    let router = bjig.router();
    let env = Environment::empty();
    assert_eq!(
        router.start_args(Some("/dev/ttyACM1"), Some(115200), &env).unwrap(),
        vec!["--port", "/dev/ttyACM1", "--baud", "115200", "router", "start"]
    );
}

#[test]
fn router_commands_without_port_fail() {
    let bjig = BjigController::new("./bin/bjig", true).unwrap();
    let router = bjig.router();
    let env = Environment::empty();
    assert!(matches!(router.start_args(None, None, &env), Err(BjigError::PortNotConfigured)));
    assert!(matches!(
        router.get_module_id_args(Some(3), None, None, &env),
        Err(BjigError::PortNotConfigured)
    ));
    assert!(matches!(
        router.dfu_args("fw.bin", true, None, None, &env),
        Err(BjigError::PortNotConfigured)
    ));
}

#[test]
fn router_module_id_commands_take_an_optional_index() {
    let bjig = controller();
    let router = bjig.router();
    let env = Environment::empty();
    assert_eq!(
        router.get_module_id_args(None, None, None, &env).unwrap(),
        device(&["router", "get-module-id"])
    );
    assert_eq!(
        router.get_module_id_args(Some(0), None, None, &env).unwrap(),
        device(&["router", "get-module-id", "0"])
    );
    assert_eq!(
        router.get_module_id_args(Some(99), None, None, &env).unwrap(),
        device(&["router", "get-module-id", "99"])
    );
    assert_eq!(
        router.remove_module_id_args(None, None, None, &env).unwrap(),
        device(&["router", "remove-module-id"])
    );
    assert_eq!(
        router.remove_module_id_args(Some(255), None, None, &env).unwrap(),
        device(&["router", "remove-module-id", "255"])
    );
}

#[test]
fn router_set_scan_mode_passes_the_mode_number() {
    let bjig = controller();
    let router = bjig.router();
    let env = Environment::empty();
    assert_eq!(
        router.set_scan_mode_args(ScanModeType::LongRange, None, None, &env).unwrap(),
        device(&["router", "set-scan-mode", "0"])
    );
    assert_eq!(
        router.set_scan_mode_args(ScanModeType::Legacy, None, None, &env).unwrap(),
        device(&["router", "set-scan-mode", "1"])
    );
}

#[test]
fn router_static_commands_have_no_port() {
    let bjig = BjigController::new("./bin/bjig", true).unwrap();
    let router = bjig.router();
    assert_eq!(router.get_supported_sensor_id_args(), vec!["router", "get-supported-sensor-id"]);
    assert_eq!(
        router.get_module_config_args("module-config.yml"),
        vec!["router", "get-module-config", "--file", "module-config.yml"]
    );
}

#[test]
fn router_dfu_needs_the_firmware_file() {
    let bjig = controller();
    let router = bjig.router();
    let env = Environment::empty();
    assert_eq!(
        router.dfu_args("router_firmware.bin", true, None, None, &env).unwrap(),
        device(&["router", "dfu", "--file", "router_firmware.bin"])
    );
    match router.dfu_args("missing.bin", false, None, None, &env) {
        Err(BjigError::FileNotFound(path)) => assert_eq!(path, "missing.bin"),
        other => panic!("{:?}", other),
    }
    // The file is looked for before the port.
    let bare = BjigController::new("./bin/bjig", true).unwrap();
    match bare.router().dfu_args("missing.bin", false, None, None, &env) {
        Err(BjigError::FileNotFound(path)) => assert_eq!(path, "missing.bin"),
        other => panic!("{:?}", other),
    }
}

#[test]
fn module_commands_that_wait_for_an_answer() {
    let bjig = controller();
    let module = bjig.module("0121", "2468800203400004");
    let env = Environment::empty();
    assert_eq!(DEFAULT_RESPONSE_TIMEOUT_SECS, 30);
    assert_eq!(
        module.instant_uplink_args(DEFAULT_RESPONSE_TIMEOUT_SECS, None, None, &env).unwrap(),
        device(&[
            "module",
            "instant-uplink",
            "--sensor-id",
            "0121",
            "--module-id",
            "2468800203400004",
            "--response-timeout",
            "30"
        ])
    );
    assert_eq!(
        module.get_parameter_args(5, None, None, &env).unwrap(),
        device(&[
            "module",
            "get-parameter",
            "--sensor-id",
            "0121",
            "--module-id",
            "2468800203400004",
            "--response-timeout",
            "5"
        ])
    );
    assert_eq!(
        module.restart_args(u64::MAX, Some("/dev/ttyACM7"), Some(9600), &env).unwrap(),
        vec![
            "--port",
            "/dev/ttyACM7",
            "--baud",
            "9600",
            "module",
            "restart",
            "--sensor-id",
            "0121",
            "--module-id",
            "2468800203400004",
            "--response-timeout",
            "18446744073709551615"
        ]
    );
}

#[test]
fn module_commands_that_send_a_document() {
    let bjig = controller();
    let module = bjig.module("0126", "2468800203400004");
    let env = Environment::empty();
    let data = parse_json("{ \"clear_counts\" : \"all\" }").unwrap();
    assert_eq!(
        module.control_args(&data, 30, None, None, &env).unwrap(),
        device(&[
            "module",
            "control",
            "--sensor-id",
            "0126",
            "--module-id",
            "2468800203400004",
            "--data",
            "{\"clear_counts\":\"all\"}",
            "--response-timeout",
            "30"
        ])
    );
    let data = parse_json("[60, 100]").unwrap();
    assert_eq!(
        module.set_parameter_args(&data, 12, None, None, &env).unwrap(),
        device(&[
            "module",
            "set-parameter",
            "--sensor-id",
            "0126",
            "--module-id",
            "2468800203400004",
            "--data",
            "[60,100]",
            "--response-timeout",
            "12"
        ])
    );
    assert_eq!(
        module.set_parameter_text_args("{}", 1, None, None, &env).unwrap(),
        device(&[
            "module",
            "set-parameter",
            "--sensor-id",
            "0126",
            "--module-id",
            "2468800203400004",
            "--data",
            "{}",
            "--response-timeout",
            "1"
        ])
    );
    assert_eq!(
        module.control_text_args("null", 2, None, None, &env).unwrap()[11],
        "null"
    );
    let bare = BjigController::new("./bin/bjig", true).unwrap();
    assert!(matches!(
        bare.module("0126", "1").set_parameter_args(&data, 12, None, None, &env),
        Err(BjigError::PortNotConfigured)
    ));
}

#[test]
fn module_dfu_needs_the_firmware_file() {
    let bjig = controller();
    let module = bjig.module("0121", "2468800203400004");
    let env = Environment::empty();
    assert_eq!(
        module.dfu_args("module_firmware.bin", true, None, None, &env).unwrap(),
        device(&[
            "module",
            "dfu",
            "--sensor-id",
            "0121",
            "--module-id",
            "2468800203400004",
            "--file",
            "module_firmware.bin"
        ])
    );
    match module.dfu_args("gone.bin", false, None, None, &env) {
        Err(BjigError::FileNotFound(path)) => assert_eq!(path, "gone.bin"),
        other => panic!("{:?}", other),
    }
}

#[test]
fn monitor_command_takes_an_optional_ttl() {
    let bjig = controller();
    let monitor = bjig.monitor();
    let env = Environment::empty();
    assert_eq!(monitor.args(None, None, None, &env).unwrap(), device(&["monitor"]));
    assert_eq!(
        monitor.args(Some(60), None, None, &env).unwrap(),
        device(&["monitor", "--ttl", "60"])
    );
    assert_eq!(
        monitor.args(Some(0), Some("/dev/ttyACM1"), Some(115200), &env).unwrap(),
        vec!["--port", "/dev/ttyACM1", "--baud", "115200", "monitor", "--ttl", "0"]
    );
    let bare = BjigController::new("./bin/bjig", true).unwrap();
    assert!(matches!(
        bare.monitor().args(Some(1), None, None, &env),
        Err(BjigError::PortNotConfigured)
    ));
}

#[test]
fn control_queue_holds_ten_signals() {
    assert_eq!(CONTROL_QUEUE_CAPACITY, 10);
}

#[test]
fn queued_signal_is_success() {
    for message in [ControlMessage::Stop, ControlMessage::Pause, ControlMessage::Resume] {
        assert!(send_outcome(message, true).is_ok());
    }
}

#[test]
fn lost_pause_and_resume_are_reported_lost_stop_is_not() {
    match send_outcome(ControlMessage::Pause, false) {
        Err(BjigError::CommandFailed(text)) => assert_eq!(text, "Failed to send pause signal"),
        other => panic!("{:?}", other),
    }
    match send_outcome(ControlMessage::Resume, false) {
        Err(BjigError::CommandFailed(text)) => assert_eq!(text, "Failed to send resume signal"),
        other => panic!("{:?}", other),
    }
    assert!(send_outcome(ControlMessage::Stop, false).is_ok());
}

#[test]
fn task_failure_is_a_command_failure_with_the_reason() {
    match task_failure("task 7 panicked") {
        BjigError::CommandFailed(text) => {
            assert_eq!(text, "Monitor task panicked: task 7 panicked");
        }
        other => panic!("{:?}", other),
    }
    match task_failure("") {
        BjigError::CommandFailed(text) => assert_eq!(text, "Monitor task panicked: "),
        other => panic!("{:?}", other),
    }
}

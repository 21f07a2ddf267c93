use bjig_controller::executor::{
    command_output, exit_failure, exit_failure_message, json_text, owned_args, parse_json,
    push_words, CommandExecutor,
};
use bjig_controller::{BjigError, Environment};

#[test]
fn test_build_args_with_overrides() {
    let executor = CommandExecutor::new("/bin/bjig", Some("/dev/ttyACM0"), Some(38400));

    let args = executor
        .build_args(
            &["router", "get-version"],
            Some("/dev/ttyACM1"),
            Some(115200),
            &Environment::empty(),
        )
        .unwrap();

    assert_eq!(
        args,
        vec![
            "--port",
            "/dev/ttyACM1",
            "--baud",
            "115200",
            "router",
            "get-version"
        ]
    );
}

#[test]
fn test_build_args_with_defaults() {
    let executor = CommandExecutor::new("/bin/bjig", Some("/dev/ttyACM0"), Some(38400));

    let args = executor
        .build_args(&["router", "start"], None, None, &Environment::empty())
        .unwrap();

    assert_eq!(
        args,
        vec!["--port", "/dev/ttyACM0", "--baud", "38400", "router", "start"]
    );
}

#[test]
fn build_args_falls_back_to_environment_and_default_baud() {
    let executor = CommandExecutor::new("/bin/bjig", None, None);
    let env = Environment {
        bin_path: None,
        port: Some("/dev/ttyUSB0".to_string()),
        baud: None,
        module_config: None,
    };
    let args = executor.build_args(&["monitor"], None, None, &env).unwrap();
    assert_eq!(args, vec!["--port", "/dev/ttyUSB0", "--baud", "38400", "monitor"]);

    let env = Environment {
        bin_path: None,
        port: Some("/dev/ttyUSB0".to_string()),
        baud: Some("9600".to_string()),
        module_config: None,
    };
    let args = executor.build_args(&[], None, None, &env).unwrap();
    assert_eq!(args, vec!["--port", "/dev/ttyUSB0", "--baud", "9600"]);
}

#[test]
fn build_args_without_port_fails() {
    let executor = CommandExecutor::new("/bin/bjig", None, Some(9600));
    let result = executor.build_args(&["router", "start"], None, Some(1), &Environment::empty());
    assert!(matches!(result, Err(BjigError::PortNotConfigured)));
}

#[test]
fn build_args_writes_extreme_baud_rates() {
    let executor = CommandExecutor::new("/bin/bjig", Some("p"), None);
    let env = Environment::empty();
    let args = executor.build_args(&["x"], None, Some(0), &env).unwrap();
    assert_eq!(args[3], "0");
    let args = executor.build_args(&["x"], None, Some(u32::MAX), &env).unwrap();
    assert_eq!(args[3], "4294967295");
    let args = executor.build_args(&["x"], None, Some(10), &env).unwrap();
    assert_eq!(args[3], "10");
}

#[test]
fn owned_args_copies_each_word() {
    assert_eq!(owned_args(&["router", "get-supported-sensor-id"]), vec!["router", "get-supported-sensor-id"]);
    assert_eq!(owned_args(&[]), Vec::<String>::new());
    let mut args = vec!["first".to_string()];
    push_words(&mut args, &["second", "", "third"]);
    assert_eq!(args, vec!["first", "second", "", "third"]);
}

#[test]
fn exit_failure_message_names_code_and_stderr() {
    assert_eq!(exit_failure_message(Some(1), "no device"), "Exit code: Some(1), stderr: no device");
    assert_eq!(exit_failure_message(Some(0), ""), "Exit code: Some(0), stderr: ");
    assert_eq!(exit_failure_message(None, "killed"), "Exit code: None, stderr: killed");
    assert_eq!(exit_failure_message(Some(-15), "e"), "Exit code: Some(-15), stderr: e");
    for code in [Some(i32::MAX), Some(i32::MIN), Some(255), Some(-1), Some(100), None] {
        assert_eq!(
            exit_failure_message(code, "text"),
            format!("Exit code: {:?}, stderr: {}", code, "text")
        );
    }
    match exit_failure(Some(2), "x") {
        BjigError::CommandFailed(message) => assert_eq!(message, "Exit code: Some(2), stderr: x"),
        other => panic!("{:?}", other),
    }
}

#[test]
fn command_output_of_successful_command_is_its_stdout() {
    let output = command_output(Some(0), b"{\"result\":\"success\"}".to_vec(), "noise").unwrap();
    assert_eq!(output, "{\"result\":\"success\"}");
    let output = command_output(Some(0), "gr\u{fc}\u{df}e \u{1f600}".as_bytes().to_vec(), "").unwrap();
    assert_eq!(output, "gr\u{fc}\u{df}e \u{1f600}");
    assert_eq!(command_output(Some(0), Vec::new(), "").unwrap(), "");
}

#[test]
fn command_output_of_failed_command_is_command_failed() {
    match command_output(Some(1), b"ignored".to_vec(), "port busy") {
        Err(BjigError::CommandFailed(message)) => {
            assert_eq!(message, "Exit code: Some(1), stderr: port busy");
        }
        other => panic!("{:?}", other),
    }
    match command_output(None, vec![0xff], "") {
        Err(BjigError::CommandFailed(message)) => assert_eq!(message, "Exit code: None, stderr: "),
        other => panic!("{:?}", other),
    }
}

#[test]
fn command_output_that_is_not_utf8_is_utf8_error() {
    match command_output(Some(0), vec![b'o', b'k', 0xff, 0xfe], "") {
        Err(BjigError::Utf8Error(error)) => assert_eq!(error.as_bytes(), &[b'o', b'k', 0xff, 0xfe]),
        other => panic!("{:?}", other),
    }
    assert!(matches!(command_output(Some(0), vec![0xc0, 0x80], ""), Err(BjigError::Utf8Error(_))));
    assert!(matches!(command_output(Some(0), vec![0xed, 0xa0, 0x80], ""), Err(BjigError::Utf8Error(_))));
}

#[test]
fn parse_json_reads_a_document() {
    let document = parse_json("{\"major\": 1, \"list\": [true, null, \"x\"]}").unwrap();
    assert_eq!(document["major"].as_u64(), Some(1));
    assert_eq!(document["list"][2].as_str(), Some("x"));
    assert!(document["list"][1].is_null());
    assert_eq!(parse_json(" 42 ").unwrap().as_i64(), Some(42));
}

#[test]
fn parse_json_rejects_what_is_no_document() {
    for text in ["", "{", "{\"a\":}", "success", "{} {}", "[1,]"] {
        match parse_json(text) {
            Err(BjigError::JsonParseError(_)) => {}
            other => panic!("{}: {:?}", text, other),
        }
    }
}

#[test]
fn json_text_writes_compact_json() {
    let document = parse_json("{ \"interval\" : 60, \"name\" : \"a b\" }").unwrap();
    let text = json_text(&document).unwrap();
    assert_eq!(parse_json(&text).unwrap(), document);
    assert!(!text.contains(' ') || text.contains("a b"));
    assert_eq!(json_text(&parse_json("[1, 2]").unwrap()).unwrap(), "[1,2]");
}

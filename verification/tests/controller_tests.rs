use bjig_controller::{BjigController, BjigError, Environment};

#[test]
fn test_controller_builder() {
    let bjig = BjigController::new("./bin/bjig", true)
        .unwrap()
        .with_port("/dev/ttyACM0")
        .with_baud(115200);

    assert_eq!(bjig.default_port, Some("/dev/ttyACM0".to_string()));
    assert_eq!(bjig.default_baud, Some(115200));
}

#[test]
fn new_controller_has_no_defaults() {
    let bjig = BjigController::new("/usr/local/bin/bjig", true).unwrap();
    assert_eq!(bjig.bjig_path, "/usr/local/bin/bjig");
    assert_eq!(bjig.default_port, None);
    assert_eq!(bjig.default_baud, None);
    assert_eq!(bjig.module_config_path, None);
}

#[test]
fn missing_binary_is_reported_with_its_path() {
    match BjigController::new("./nowhere/bjig", false) {
        Err(BjigError::BinaryNotFound(path)) => assert_eq!(path, "./nowhere/bjig"),
        other => panic!("{:?}", other),
    }
}

#[test]
fn builders_keep_the_other_fields() {
    let bjig = BjigController::new("./bin/bjig", true)
        .unwrap()
        .with_baud(9600)
        .with_module_config_path("/etc/bjig/modules.yml")
        .with_port("/dev/ttyACM2");
    assert_eq!(bjig.bjig_path, "./bin/bjig");
    assert_eq!(bjig.default_port, Some("/dev/ttyACM2".to_string()));
    assert_eq!(bjig.default_baud, Some(9600));
    assert_eq!(bjig.module_config_path, Some("/etc/bjig/modules.yml".to_string()));
    let bjig = bjig.with_port("/dev/ttyACM9");
    assert_eq!(bjig.default_port, Some("/dev/ttyACM9".to_string()));
    assert_eq!(bjig.default_baud, Some(9600));
}

#[test]
fn from_env_takes_path_port_and_baud() {
    let env = Environment {
        bin_path: Some("/opt/bjig/bjig".to_string()),
        port: Some("/dev/ttyACM5".to_string()),
        baud: Some("115200".to_string()),
        module_config: Some("unused.yml".to_string()),
    };
    let bjig = BjigController::from_env(&env, true).unwrap();
    assert_eq!(bjig.bjig_path, "/opt/bjig/bjig");
    assert_eq!(bjig.default_port, Some("/dev/ttyACM5".to_string()));
    assert_eq!(bjig.default_baud, Some(115200));
    assert_eq!(bjig.module_config_path, None);
}

#[test]
fn from_env_with_nothing_set_uses_default_path() {
    let bjig = BjigController::from_env(&Environment::empty(), true).unwrap();
    assert_eq!(bjig.bjig_path, "./bin/bjig");
    assert_eq!(bjig.default_port, None);
    assert_eq!(bjig.default_baud, None);
}

#[test]
fn from_env_skips_unreadable_baud() {
    let env = Environment {
        bin_path: None,
        port: None,
        baud: Some("fast".to_string()),
        module_config: None,
    };
    let bjig = BjigController::from_env(&env, true).unwrap();
    assert_eq!(bjig.default_baud, None);
}

#[test]
fn from_env_reports_missing_binary() {
    let env = Environment {
        bin_path: Some("/missing/bjig".to_string()),
        port: None,
        baud: None,
        module_config: None,
    };
    match BjigController::from_env(&env, false) {
        Err(BjigError::BinaryNotFound(path)) => assert_eq!(path, "/missing/bjig"),
        other => panic!("{:?}", other),
    }
}

#[test]
fn executor_carries_the_controller_defaults() {
    let bjig = BjigController::new("./bin/bjig", true).unwrap().with_port("/dev/ttyACM0");
    let executor = bjig.executor();
    assert_eq!(executor.bjig_path, "./bin/bjig");
    assert_eq!(executor.default_port, Some("/dev/ttyACM0"));
    assert_eq!(executor.default_baud, None);
    let router = bjig.router();
    assert_eq!(router.executor().default_port, Some("/dev/ttyACM0"));
    let module = bjig.module("0121", "2468800203400004");
    assert_eq!(module.executor().bjig_path, "./bin/bjig");
    let monitor = bjig.monitor();
    assert_eq!(monitor.executor().default_baud, None);
}

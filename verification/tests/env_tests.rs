use bjig_controller::env::{
    get_baud_from_env, get_bjig_binary_path, get_module_config_from_env, get_port_from_env,
    resolve_baud, resolve_port,
};
use bjig_controller::{BjigError, Environment, DEFAULT_BAUD};

fn env_with(port: Option<&str>, baud: Option<&str>) -> Environment {
    Environment {
        bin_path: None,
        port: port.map(String::from),
        baud: baud.map(String::from),
        module_config: None,
    }
}

#[test]
fn test_resolve_port_explicit() {
    let result =
        resolve_port(Some("/dev/ttyACM0"), Some("/dev/ttyACM1"), &Environment::empty()).unwrap();
    assert_eq!(result, "/dev/ttyACM0");
}

#[test]
fn test_resolve_port_default() {
    let result = resolve_port(None, Some("/dev/ttyACM1"), &Environment::empty()).unwrap();
    assert_eq!(result, "/dev/ttyACM1");
}

#[test]
fn test_resolve_baud_explicit() {
    let result = resolve_baud(Some(115200), Some(9600), &Environment::empty());
    assert_eq!(result, 115200);
}

#[test]
fn test_resolve_baud_default() {
    let result = resolve_baud(None, Some(9600), &Environment::empty());
    assert_eq!(result, 9600);
}

#[test]
fn test_resolve_baud_fallback() {
    let result = resolve_baud(None, None, &Environment::empty());
    assert_eq!(result, DEFAULT_BAUD);
}

#[test]
fn resolve_port_falls_back_to_environment() {
    let env = env_with(Some("/dev/ttyUSB7"), None);
    assert_eq!(resolve_port(None, None, &env).unwrap(), "/dev/ttyUSB7");
    assert_eq!(resolve_port(None, Some("/dev/ttyACM1"), &env).unwrap(), "/dev/ttyACM1");
    assert_eq!(resolve_port(Some("/dev/ttyACM0"), None, &env).unwrap(), "/dev/ttyACM0");
}

#[test]
fn resolve_port_without_any_source_is_not_configured() {
    let result = resolve_port(None, None, &Environment::empty());
    assert!(matches!(result, Err(BjigError::PortNotConfigured)));
}

#[test]
fn resolve_baud_falls_back_to_environment() {
    let env = env_with(None, Some("57600"));
    assert_eq!(resolve_baud(None, None, &env), 57600);
    assert_eq!(resolve_baud(None, Some(9600), &env), 9600);
    assert_eq!(resolve_baud(Some(115200), None, &env), 115200);
}

#[test]
fn resolve_baud_ignores_unreadable_environment() {
    let env = env_with(None, Some("fast"));
    assert_eq!(resolve_baud(None, None, &env), 38400);
}

#[test]
fn baud_from_env_reads_decimal_only() {
    assert_eq!(get_baud_from_env(&env_with(None, Some("38400"))), Some(38400));
    assert_eq!(get_baud_from_env(&env_with(None, Some("+9600"))), Some(9600));
    assert_eq!(get_baud_from_env(&env_with(None, Some("0"))), Some(0));
    assert_eq!(get_baud_from_env(&env_with(None, Some("007"))), Some(7));
    assert_eq!(get_baud_from_env(&env_with(None, Some("4294967295"))), Some(u32::MAX));
    assert_eq!(get_baud_from_env(&env_with(None, Some("4294967296"))), None);
    assert_eq!(get_baud_from_env(&env_with(None, Some("99999999999999999999999"))), None);
    assert_eq!(get_baud_from_env(&env_with(None, Some(""))), None);
    assert_eq!(get_baud_from_env(&env_with(None, Some("+"))), None);
    assert_eq!(get_baud_from_env(&env_with(None, Some("-1"))), None);
    assert_eq!(get_baud_from_env(&env_with(None, Some(" 9600"))), None);
    assert_eq!(get_baud_from_env(&env_with(None, Some("9600 "))), None);
    assert_eq!(get_baud_from_env(&env_with(None, Some("9_600"))), None);
    assert_eq!(get_baud_from_env(&env_with(None, Some("0x10"))), None);
    assert_eq!(get_baud_from_env(&env_with(None, Some("++1"))), None);
    assert_eq!(get_baud_from_env(&env_with(None, None)), None);
}

#[test]
fn baud_from_env_agrees_with_std_parse() {
    for text in ["1", "+1", "12a", "١٢", "٣", "4294967295", "4294967296", "00000000000001", "+0", "-0", "1.0", "１２"] {
        let env = env_with(None, Some(text));
        assert_eq!(get_baud_from_env(&env), text.parse::<u32>().ok(), "{}", text);
    }
}

#[test]
fn paths_come_from_environment_or_defaults() {
    let empty = Environment::empty();
    assert_eq!(get_bjig_binary_path(&empty), "./bin/bjig");
    assert_eq!(get_module_config_from_env(&empty), "module-config.yml");
    assert_eq!(get_port_from_env(&empty), None);
    let env = Environment {
        bin_path: Some("/opt/bjig".to_string()),
        port: Some("/dev/ttyACM3".to_string()),
        baud: None,
        module_config: Some("/etc/modules.yml".to_string()),
    };
    assert_eq!(get_bjig_binary_path(&env), "/opt/bjig");
    assert_eq!(get_module_config_from_env(&env), "/etc/modules.yml");
    assert_eq!(get_port_from_env(&env), Some("/dev/ttyACM3".to_string()));
}

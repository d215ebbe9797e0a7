use verboten::config::{count_digits, strip_verbatim_prefix, timeout_from_param, timeout_or_default, SupervisionConfig, DEFAULT_TIMEOUT_SECS};
use verboten::err::Error;
use verboten::lifecycle::{initial_status, ControlAck, ControlBridge, ControlCode, HostState};
use verboten::loglevel::LogLevel;
use verboten::termsig::{term_channel, Reason};
use verboten::text::{decimal_text, parse_port};

fn config(port: Option<u16>, timeout_secs: Option<u64>) -> SupervisionConfig {
    SupervisionConfig { executable: String::from("C:\\tools\\msvsmon.exe"), port, timeout_secs }
}

#[test]
fn args_without_port_or_timeout() {
    assert_eq!(
        config(None, None).child_args(),
        vec!["--noauth", "--anyuser", "--nosecuritywarn", "--silent"]
    );
}

#[test]
fn args_with_port_and_timeout() {
    assert_eq!(
        config(Some(4024), Some(86400)).child_args(),
        vec!["--port", "4024", "--timeout", "86400", "--noauth", "--anyuser", "--nosecuritywarn", "--silent"]
    );
    assert_eq!(
        config(None, Some(0)).child_args(),
        vec!["--timeout", "0", "--noauth", "--anyuser", "--nosecuritywarn", "--silent"]
    );
}

#[test]
fn decimal_numerals() {
    assert_eq!(decimal_text(0), "0");
    assert_eq!(decimal_text(7), "7");
    assert_eq!(decimal_text(10), "10");
    assert_eq!(decimal_text(65535), "65535");
    assert_eq!(decimal_text(u64::MAX), "18446744073709551615");
}

#[test]
fn port_numbers() {
    assert_eq!(parse_port("4024"), Some(4024));
    assert_eq!(parse_port("+80"), Some(80));
    assert_eq!(parse_port("0065535"), Some(65535));
    assert_eq!(parse_port("0"), Some(0));
    assert_eq!(parse_port("65536"), None);
    assert_eq!(parse_port("99999999999"), None);
    assert_eq!(parse_port(""), None);
    assert_eq!(parse_port("+"), None);
    assert_eq!(parse_port("-1"), None);
    assert_eq!(parse_port("80a"), None);
    assert_eq!(parse_port(" 80"), None);
}

#[test]
fn timeouts_read_by_humantime() {
    assert_eq!(timeout_from_param(None), None);
    assert_eq!(timeout_from_param(Some("1days")), Some(86400));
    assert_eq!(timeout_from_param(Some("5min")), Some(300));
    assert_eq!(timeout_from_param(Some("90s")), Some(90));
    assert_eq!(timeout_from_param(Some("0")), Some(0));
    assert_eq!(timeout_from_param(Some("soon")), Some(DEFAULT_TIMEOUT_SECS));
    assert_eq!(timeout_or_default(None), 300);
    assert_eq!(timeout_or_default(Some(12)), 12);
}

#[test]
fn config_from_params() {
    let c = SupervisionConfig::from_params(Some(String::from("a.exe")), Some("4024"), Some("1days")).unwrap();
    assert_eq!(c.executable, "a.exe");
    assert_eq!(c.port, Some(4024));
    assert_eq!(c.timeout_secs, Some(86400));

    let c = SupervisionConfig::from_params(Some(String::from("a.exe")), None, None).unwrap();
    assert_eq!(c.port, None);
    assert_eq!(c.timeout_secs, None);

    match SupervisionConfig::from_params(None, Some("4024"), None) {
        Err(Error::BadInput(_)) => {}
        _ => panic!("a missing executable must be bad input"),
    }
    match SupervisionConfig::from_params(Some(String::from("a.exe")), Some("port"), None) {
        Err(Error::BadFormat(m)) => assert!(m.ends_with("port")),
        _ => panic!("a bad port must be a bad format"),
    }
}

#[test]
fn log_level_names() {
    let all = [
        (LogLevel::Off, "off"),
        (LogLevel::Error, "error"),
        (LogLevel::Warn, "warn"),
        (LogLevel::Info, "info"),
        (LogLevel::Debug, "debug"),
        (LogLevel::Trace, "trace"),
    ];
    for (level, name) in all {
        assert_eq!(LogLevel::from_str(name).unwrap(), level);
        assert_eq!(level.as_str(), name);
        assert_eq!(level.to_string(), name);
    }
    match LogLevel::from_str("loud") {
        Err(Error::BadInput(m)) => assert_eq!(m, "Unknown log level 'loud'"),
        _ => panic!("an unknown level must be bad input"),
    }
    assert_eq!(LogLevel::default(), LogLevel::Error);
}

#[test]
fn log_level_from_setting() {
    assert_eq!(LogLevel::from_param(None), LogLevel::Error);
    assert_eq!(LogLevel::from_param(Some("debug")), LogLevel::Debug);
    assert_eq!(LogLevel::from_param(Some("off")), LogLevel::Off);
    assert_eq!(LogLevel::from_param(Some("DEBUG")), LogLevel::Off);
}

#[test]
fn error_messages() {
    assert_eq!(Error::IO(String::from("disk")).message(), "I/O error; disk");
    assert_eq!(Error::BadFormat(String::from("x")).message(), "Bad format error; x");
    assert_eq!(Error::BadInput(String::from("x")).message(), "Bad input error; x");
    assert_eq!(Error::ArgParser(String::from("x")).message(), "ArgParser error; x");
    assert_eq!(Error::Service(String::from("x")).message(), "Service error; x");
    assert_eq!(Error::EventLog(String::from("x")).message(), "EventLog error; x");
    assert_eq!(Error::RegistryKey(String::from("x")).message(), "Registry Key error; x");
}

#[test]
fn control_requests() {
    let (signal, mut wait) = term_channel();
    let mut bridge = ControlBridge::new(signal);
    assert_eq!(bridge.handle(ControlCode::Interrogate), ControlAck::NoError);
    assert_eq!(bridge.handle(ControlCode::Pause), ControlAck::NotImplemented);
    assert_eq!(bridge.handle(ControlCode::Continue), ControlAck::NotImplemented);
    assert_eq!(bridge.handle(ControlCode::Other), ControlAck::NotImplemented);
    assert_eq!(wait.wait(), Reason::Timeout);
    assert_eq!(bridge.handle(ControlCode::Stop), ControlAck::NoError);
    assert_eq!(wait.wait(), Reason::Die);
}

#[test]
fn host_baseline_status() {
    let s = initial_status();
    assert_eq!(s.state, HostState::StartPending);
    assert_eq!(s.checkpoint, 0);
    assert_eq!(s.wait_hint_secs, 10);
    assert!(!s.accepts_stop);
}

#[test]
fn verbatim_prefix_removed() {
    assert_eq!(strip_verbatim_prefix("\\\\?\\C:\\tools\\msvsmon.exe"), "C:\\tools\\msvsmon.exe");
    assert_eq!(strip_verbatim_prefix("C:\\tools\\msvsmon.exe"), "C:\\tools\\msvsmon.exe");
    assert_eq!(strip_verbatim_prefix("\\\\?"), "\\\\?");
    assert_eq!(strip_verbatim_prefix("\\\\?\\"), "");
    assert_eq!(strip_verbatim_prefix(""), "");
}

#[test]
fn timeouts_over_digit_limit_fall_back() {
    assert_eq!(timeout_from_param(Some("9999999999s")), Some(9999999999));
    assert_eq!(timeout_from_param(Some("99999999999s")), Some(DEFAULT_TIMEOUT_SECS));
    assert_eq!(timeout_from_param(Some("18446744073709551615s 500ms 500ms")), Some(DEFAULT_TIMEOUT_SECS));
    assert_eq!(count_digits("1hour 12min 5s"), 4);
    assert_eq!(count_digits(""), 0);
    assert_eq!(count_digits("days"), 0);
}

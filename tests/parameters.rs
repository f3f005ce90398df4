use nssm_rs::cli::{ExitAction, ProcessPriority, ServiceConfig, ServiceStartType};
use nssm_rs::numbers::{decimal_string, parse_u32};
use nssm_rs::parameters::{
    apply_parameter, get_default_parameter_value, get_service_parameter, parameter_value,
    set_service_parameter, ParameterError, ParameterKey,
};

fn config() -> ServiceConfig {
    let mut c = ServiceConfig::default();
    c.application = "C:\\app\\server.exe".to_string();
    c
}

#[test]
fn defaults_of_parameters() {
    assert_eq!(get_default_parameter_value("AppThrottle"), "1500");
    assert_eq!(get_default_parameter_value("appstopmethod"), "0");
    assert_eq!(get_default_parameter_value("AppStopMethod_Console"), "1500");
    assert_eq!(get_default_parameter_value("AppStopMethod_Window"), "1500");
    assert_eq!(get_default_parameter_value("AppStopMethod_Threads"), "1500");
    assert_eq!(get_default_parameter_value("AppRestartDelay"), "0");
    assert_eq!(get_default_parameter_value("AppNoConsole"), "0");
    assert_eq!(get_default_parameter_value("AppPriority"), "NORMAL_PRIORITY_CLASS");
    assert_eq!(get_default_parameter_value("Start"), "SERVICE_DEMAND_START");
    assert_eq!(get_default_parameter_value("AppExitAction"), "Restart");
    assert_eq!(get_default_parameter_value("DisplayName"), "");
    assert_eq!(get_default_parameter_value("AppStdout"), "");
    assert_eq!(get_default_parameter_value("NoSuchThing"), "");
    assert_eq!(get_default_parameter_value(""), "");
}

#[test]
fn set_number_parameters() {
    let mut c = config();
    assert_eq!(set_service_parameter(&mut c, "AppThrottle", "2500"), Ok(()));
    assert_eq!(c.app_throttle, 2500);
    assert_eq!(set_service_parameter(&mut c, "APPSTOPMETHOD", "+15"), Ok(()));
    assert_eq!(c.app_stop_method_skip, 15);
    assert_eq!(set_service_parameter(&mut c, "appstopmethod_console", "0"), Ok(()));
    assert_eq!(c.app_stop_method_console, 0);
    assert_eq!(set_service_parameter(&mut c, "AppStopMethod_Window", "4294967295"), Ok(()));
    assert_eq!(c.app_stop_method_window, u32::MAX);
    assert_eq!(set_service_parameter(&mut c, "AppStopMethod_Threads", "7"), Ok(()));
    assert_eq!(c.app_stop_method_threads, 7);
    assert_eq!(set_service_parameter(&mut c, "AppRestartDelay", "100"), Ok(()));
    assert_eq!(c.app_restart_delay, 100);
}

#[test]
fn bad_numbers_are_refused_and_change_nothing() {
    let mut c = config();
    for bad in ["", "+", "-1", "12a", " 5", "4294967296", "99999999999999999999"] {
        assert_eq!(
            set_service_parameter(&mut c, "AppThrottle", bad),
            Err(ParameterError::Invalid(ParameterKey::AppThrottle))
        );
        assert_eq!(c.app_throttle, 1500);
    }
}

#[test]
fn set_text_parameters() {
    let mut c = config();
    assert_eq!(set_service_parameter(&mut c, "AppDirectory", "D:\\work"), Ok(()));
    assert_eq!(c.app_directory.as_deref(), Some("D:\\work"));
    assert_eq!(set_service_parameter(&mut c, "AppDirectory", ""), Ok(()));
    assert_eq!(c.app_directory, None);
    assert_eq!(set_service_parameter(&mut c, "AppParameters", "-v --port 80"), Ok(()));
    assert_eq!(c.app_parameters.as_deref(), Some("-v --port 80"));
    assert_eq!(set_service_parameter(&mut c, "DisplayName", "My Service"), Ok(()));
    assert_eq!(c.display_name.as_deref(), Some("My Service"));
    assert_eq!(set_service_parameter(&mut c, "Description", "runs things"), Ok(()));
    assert_eq!(c.description.as_deref(), Some("runs things"));
    assert_eq!(set_service_parameter(&mut c, "AppStdout", "out.log"), Ok(()));
    assert_eq!(c.app_stdout.as_deref(), Some("out.log"));
    assert_eq!(set_service_parameter(&mut c, "AppStderr", "err.log"), Ok(()));
    assert_eq!(c.app_stderr.as_deref(), Some("err.log"));
    assert_eq!(set_service_parameter(&mut c, "AppStdin", "in.txt"), Ok(()));
    assert_eq!(c.app_stdin.as_deref(), Some("in.txt"));
    assert_eq!(set_service_parameter(&mut c, "Application", "C:\\other.exe"), Ok(()));
    assert_eq!(c.application, "C:\\other.exe");
}

#[test]
fn set_named_values() {
    let mut c = config();
    assert_eq!(set_service_parameter(&mut c, "Start", "auto"), Ok(()));
    assert_eq!(c.start_type, ServiceStartType::Auto);
    assert_eq!(set_service_parameter(&mut c, "Start", "SERVICE_DISABLED"), Ok(()));
    assert_eq!(c.start_type, ServiceStartType::Disabled);
    assert_eq!(set_service_parameter(&mut c, "AppPriority", "High_Priority_Class"), Ok(()));
    assert_eq!(c.app_priority, ProcessPriority::High);
    assert_eq!(set_service_parameter(&mut c, "AppExitAction", "exit"), Ok(()));
    assert_eq!(c.app_exit_default, ExitAction::Exit);
    assert_eq!(
        set_service_parameter(&mut c, "Start", "sometimes"),
        Err(ParameterError::Invalid(ParameterKey::Start))
    );
    assert_eq!(
        set_service_parameter(&mut c, "AppPriority", "fast"),
        Err(ParameterError::Invalid(ParameterKey::AppPriority))
    );
    assert_eq!(
        set_service_parameter(&mut c, "AppExitAction", "Suicide"),
        Err(ParameterError::Invalid(ParameterKey::AppExitAction))
    );
    assert_eq!(c.start_type, ServiceStartType::Disabled);
    assert_eq!(c.app_priority, ProcessPriority::High);
    assert_eq!(c.app_exit_default, ExitAction::Exit);
}

#[test]
fn no_console_is_anything_but_zero() {
    let mut c = config();
    assert_eq!(set_service_parameter(&mut c, "AppNoConsole", "1"), Ok(()));
    assert!(c.app_no_console);
    assert_eq!(set_service_parameter(&mut c, "AppNoConsole", "0"), Ok(()));
    assert!(!c.app_no_console);
    assert_eq!(set_service_parameter(&mut c, "AppNoConsole", "yes"), Ok(()));
    assert!(c.app_no_console);
}

#[test]
fn unknown_parameter_is_refused() {
    let mut c = config();
    assert_eq!(set_service_parameter(&mut c, "AppAffinity", "1"), Err(ParameterError::Unknown));
    assert_eq!(get_service_parameter(&c, "Bogus"), Err(ParameterError::Unknown));
}

#[test]
fn get_parameters() {
    let mut c = config();
    c.app_no_console = true;
    c.app_priority = ProcessPriority::BelowNormal;
    c.app_stop_method_skip = 12;
    assert_eq!(get_service_parameter(&c, "application"), Ok("C:\\app\\server.exe".to_string()));
    assert_eq!(get_service_parameter(&c, "AppDirectory"), Ok(String::new()));
    assert_eq!(get_service_parameter(&c, "Start"), Ok("SERVICE_DEMAND_START".to_string()));
    assert_eq!(
        get_service_parameter(&c, "AppPriority"),
        Ok("BELOW_NORMAL_PRIORITY_CLASS".to_string())
    );
    assert_eq!(get_service_parameter(&c, "AppNoConsole"), Ok("1".to_string()));
    assert_eq!(get_service_parameter(&c, "AppThrottle"), Ok("1500".to_string()));
    assert_eq!(get_service_parameter(&c, "AppStopMethod"), Ok("12".to_string()));
    assert_eq!(get_service_parameter(&c, "AppExitAction"), Ok("Restart".to_string()));
    assert_eq!(parameter_value(&c, ParameterKey::AppRestartDelay), "0");
}

#[test]
fn set_then_get_gives_the_value() {
    let mut c = config();
    for (k, v) in [
        ("AppThrottle", "0"),
        ("AppRestartDelay", "4294967295"),
        ("AppStopMethod_Console", "250"),
        ("AppPriority", "IDLE_PRIORITY_CLASS"),
        ("Start", "SERVICE_AUTO_START"),
        ("AppExitAction", "Ignore"),
        ("AppStdout", "x.log"),
    ] {
        assert_eq!(set_service_parameter(&mut c, k, v), Ok(()));
        assert_eq!(get_service_parameter(&c, k), Ok(v.to_string()));
    }
}

#[test]
fn apply_by_key() {
    let mut c = config();
    assert_eq!(apply_parameter(&mut c, ParameterKey::AppThrottle, "42"), Ok(()));
    assert_eq!(c.app_throttle, 42);
}

#[test]
fn non_ascii_names_use_full_uppercase() {
    // U+017F (long s) uppercases to 'S', U+0131 (dotless i) to 'I'.
    assert_eq!(ParameterKey::from_str("app\u{17f}tdout"), Some(ParameterKey::AppStdout));
    assert_eq!(ExitAction::from_str("\u{131}gnore"), Some(ExitAction::Ignore));
    assert_eq!(get_default_parameter_value("app\u{17f}topmethod"), "0");
    assert_eq!(ParameterKey::from_str("appstdöut"), None);
}

#[test]
fn decimal_text() {
    assert_eq!(decimal_string(0), "0");
    assert_eq!(decimal_string(10), "10");
    assert_eq!(decimal_string(1500), "1500");
    assert_eq!(decimal_string(u32::MAX), "4294967295");
    assert_eq!(parse_u32("0"), Some(0));
    assert_eq!(parse_u32("007"), Some(7));
    assert_eq!(parse_u32("+12"), Some(12));
    assert_eq!(parse_u32("4294967295"), Some(u32::MAX));
    assert_eq!(parse_u32("4294967296"), None);
    assert_eq!(parse_u32(""), None);
    assert_eq!(parse_u32("+"), None);
    assert_eq!(parse_u32("-0"), None);
    assert_eq!(parse_u32("1 "), None);
}

use nssm_rs::cli::{ExitAction, ProcessPriority, ServiceConfig};
use nssm_rs::store::{ConfigError, StoredParameters};

fn empty_store() -> StoredParameters {
    StoredParameters {
        application: None,
        app_directory: None,
        app_parameters: None,
        app_priority: None,
        app_no_console: None,
        app_throttle: None,
        app_restart_delay: None,
        app_stop_method_skip: None,
        app_stop_method_console: None,
        app_stop_method_window: None,
        app_stop_method_threads: None,
        app_exit_default: None,
        app_stdout: None,
        app_stderr: None,
        app_stdin: None,
    }
}

#[test]
fn missing_application_is_refused() {
    assert_eq!(empty_store().load().err(), Some(ConfigError::MissingApplication));
    let mut p = empty_store();
    p.application = Some(String::new());
    assert_eq!(p.load().err(), Some(ConfigError::MissingApplication));
}

#[test]
fn absent_values_take_defaults() {
    let mut p = empty_store();
    p.application = Some("C:\\a.exe".to_string());
    let c = p.load().unwrap();
    assert_eq!(c.application, "C:\\a.exe");
    assert_eq!(c.app_throttle, 1500);
    assert_eq!(c.app_stop_method_console, 1500);
    assert_eq!(c.app_restart_delay, 0);
    assert_eq!(c.app_exit_default, ExitAction::Restart);
    assert_eq!(c.app_priority, ProcessPriority::Normal);
    assert_eq!(c.app_directory, None);
}

#[test]
fn stored_values_are_read() {
    let mut p = empty_store();
    p.application = Some("C:\\a.exe".to_string());
    p.app_directory = Some(String::new());
    p.app_parameters = Some("-x".to_string());
    p.app_priority = Some(0x4000);
    p.app_no_console = Some(2);
    p.app_throttle = Some(10);
    p.app_exit_default = Some("ignore".to_string());
    p.app_stdout = Some("o.log".to_string());
    let c = p.load().unwrap();
    assert_eq!(c.app_directory, None);
    assert_eq!(c.app_parameters.as_deref(), Some("-x"));
    assert_eq!(c.app_priority, ProcessPriority::BelowNormal);
    assert!(c.app_no_console);
    assert_eq!(c.app_throttle, 10);
    assert_eq!(c.app_exit_default, ExitAction::Ignore);
    assert_eq!(c.app_stdout.as_deref(), Some("o.log"));
    p.app_exit_default = Some("whatever".to_string());
    p.app_priority = Some(1);
    let c = p.load().unwrap();
    assert_eq!(c.app_exit_default, ExitAction::Restart);
    assert_eq!(c.app_priority, ProcessPriority::Normal);
}

#[test]
fn save_then_load_round_trips() {
    let mut c = ServiceConfig::default();
    c.application = "C:\\svc\\run.exe".to_string();
    c.app_directory = Some("C:\\svc".to_string());
    c.app_parameters = Some("\"a b\" c".to_string());
    c.app_priority = ProcessPriority::AboveNormal;
    c.app_no_console = true;
    c.app_throttle = 3000;
    c.app_restart_delay = 500;
    c.app_stop_method_skip = 6;
    c.app_stop_method_console = 1;
    c.app_stop_method_window = 2;
    c.app_stop_method_threads = 3;
    c.app_exit_default = ExitAction::Exit;
    c.app_stdout = Some("out.log".to_string());
    c.app_stderr = Some("err.log".to_string());
    c.app_stdin = Some("in.txt".to_string());
    let p = StoredParameters::from_config(&c);
    assert_eq!(p.app_priority, Some(0x8000));
    assert_eq!(p.app_no_console, Some(1));
    assert_eq!(p.app_exit_default.as_deref(), Some("Exit"));
    let d = p.load().unwrap();
    assert_eq!(d.application, c.application);
    assert_eq!(d.app_directory, c.app_directory);
    assert_eq!(d.app_parameters, c.app_parameters);
    assert_eq!(d.app_priority, c.app_priority);
    assert_eq!(d.app_no_console, c.app_no_console);
    assert_eq!(d.app_throttle, c.app_throttle);
    assert_eq!(d.app_restart_delay, c.app_restart_delay);
    assert_eq!(d.app_stop_method_skip, c.app_stop_method_skip);
    assert_eq!(d.app_stop_method_console, c.app_stop_method_console);
    assert_eq!(d.app_stop_method_window, c.app_stop_method_window);
    assert_eq!(d.app_stop_method_threads, c.app_stop_method_threads);
    assert_eq!(d.app_exit_default, c.app_exit_default);
    assert_eq!(d.app_stdout, c.app_stdout);
    assert_eq!(d.app_stderr, c.app_stderr);
    assert_eq!(d.app_stdin, c.app_stdin);
}

#[test]
fn unset_paths_are_not_written() {
    let mut c = ServiceConfig::default();
    c.application = "x.exe".to_string();
    let p = StoredParameters::from_config(&c);
    assert_eq!(p.app_directory, None);
    assert_eq!(p.app_stdout, None);
    assert_eq!(p.app_throttle, Some(1500));
}

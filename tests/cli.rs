use nssm_rs::cli::{Cli, Commands, ExitAction, ProcessPriority, ServiceConfig, ServiceStartType};

#[test]
fn start_type_values_and_names() {
    assert_eq!(ServiceStartType::Auto.to_windows_value(), 2);
    assert_eq!(ServiceStartType::Manual.to_windows_value(), 3);
    assert_eq!(ServiceStartType::Disabled.to_windows_value(), 4);
    assert_eq!(ServiceStartType::from_str("Auto"), Some(ServiceStartType::Auto));
    assert_eq!(ServiceStartType::from_str("service_auto_start"), Some(ServiceStartType::Auto));
    assert_eq!(ServiceStartType::from_str("demand"), Some(ServiceStartType::Manual));
    assert_eq!(ServiceStartType::from_str("MANUAL"), Some(ServiceStartType::Manual));
    assert_eq!(
        ServiceStartType::from_str("Service_Demand_Start"),
        Some(ServiceStartType::Manual)
    );
    assert_eq!(ServiceStartType::from_str("disabled"), Some(ServiceStartType::Disabled));
    assert_eq!(ServiceStartType::from_str("SERVICE_DISABLED"), Some(ServiceStartType::Disabled));
    assert_eq!(ServiceStartType::from_str("boot"), None);
    assert_eq!(ServiceStartType::from_str(""), None);
    assert_eq!(ServiceStartType::from_upper("AUTO"), Some(ServiceStartType::Auto));
    assert_eq!(ServiceStartType::from_upper("auto"), None);
}

#[test]
fn priority_values_and_names() {
    let all = [
        (ProcessPriority::Realtime, 0x100, "realtime", "REALTIME_PRIORITY_CLASS"),
        (ProcessPriority::High, 0x80, "High", "high_priority_class"),
        (ProcessPriority::AboveNormal, 0x8000, "AboveNormal", "ABOVE_NORMAL_PRIORITY_CLASS"),
        (ProcessPriority::Normal, 0x20, "normal", "Normal_Priority_Class"),
        (ProcessPriority::BelowNormal, 0x4000, "BELOWNORMAL", "below_normal_priority_class"),
        (ProcessPriority::Idle, 0x40, "idle", "IDLE_PRIORITY_CLASS"),
    ];
    for (p, v, short, long) in all {
        assert_eq!(p.to_windows_value(), v);
        assert_eq!(ProcessPriority::from_windows_value(v), p);
        assert_eq!(ProcessPriority::from_str(short), Some(p));
        assert_eq!(ProcessPriority::from_str(long), Some(p));
    }
    assert_eq!(ProcessPriority::from_windows_value(7), ProcessPriority::Normal);
    assert_eq!(ProcessPriority::from_str("above normal"), None);
}

#[test]
fn exit_action_names() {
    assert_eq!(ExitAction::from_str("restart"), Some(ExitAction::Restart));
    assert_eq!(ExitAction::from_str("IGNORE"), Some(ExitAction::Ignore));
    assert_eq!(ExitAction::from_str("Exit"), Some(ExitAction::Exit));
    assert_eq!(ExitAction::from_str("quit"), None);
    assert_eq!(ExitAction::Restart.to_str(), "Restart");
    assert_eq!(ExitAction::Ignore.to_str(), "Ignore");
    assert_eq!(ExitAction::Exit.to_str(), "Exit");
    for a in [ExitAction::Restart, ExitAction::Ignore, ExitAction::Exit] {
        assert_eq!(ExitAction::from_str(a.to_str()), Some(a));
    }
}

#[test]
fn default_config_values() {
    let c = ServiceConfig::default();
    assert_eq!(c.application, "");
    assert_eq!(c.app_directory, None);
    assert_eq!(c.start_type, ServiceStartType::Manual);
    assert_eq!(c.app_priority, ProcessPriority::Normal);
    assert!(!c.app_no_console);
    assert_eq!(c.app_stop_method_skip, 0);
    assert_eq!(c.app_stop_method_console, 1500);
    assert_eq!(c.app_stop_method_window, 1500);
    assert_eq!(c.app_stop_method_threads, 1500);
    assert_eq!(c.app_throttle, 1500);
    assert_eq!(c.app_exit_default, ExitAction::Restart);
    assert_eq!(c.app_restart_delay, 0);
    assert_eq!(c.app_rotate_seconds, 86400);
    assert_eq!(c.app_rotate_bytes, 1048576);
    assert!(c.app_environment_extra.is_empty());
}

#[test]
fn commands_carry_their_values() {
    let cli = Cli {
        command: Commands::SetParameter {
            service_name: "web".to_string(),
            parameter: "AppThrottle".to_string(),
            value: "10".to_string(),
        },
        verbose: true,
        debug: false,
    };
    assert!(cli.verbose && !cli.debug);
    match cli.command {
        Commands::SetParameter { service_name, parameter, value } => {
            assert_eq!((service_name.as_str(), parameter.as_str(), value.as_str()), ("web", "AppThrottle", "10"));
        }
        _ => panic!("wrong command"),
    }
}

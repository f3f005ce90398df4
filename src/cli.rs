use vstd::prelude::*;
use crate::text::{fold_upper, folded, same_text};

verus! {

/// The parsed command line of the tool.
pub struct Cli {
    pub command: Commands,
    /// Enable verbose output.
    pub verbose: bool,
    /// Enable debug output.
    pub debug: bool,
}

/// The tool's subcommands.
pub enum Commands {
    /// Install a new service.
    Install { service_name: String, application: String, arguments: Vec<String> },
    /// Remove a service; `confirm` skips the question.
    Remove { service_name: String, confirm: bool },
    /// Start a service.
    Start { service_name: String },
    /// Stop a service.
    Stop { service_name: String },
    /// Stop, then start a service.
    Restart { service_name: String },
    /// Set one service parameter.
    SetParameter { service_name: String, parameter: String, value: String },
    /// Print one service parameter.
    Get { service_name: String, parameter: String },
    /// Set one service parameter back to its default.
    Reset { service_name: String, parameter: String },
    /// Query service status.
    Status { service_name: String },
    /// List the services this tool manages.
    List,
    /// Run as a service (used by the service control manager).
    Run { name: String },
}

/// The configuration of one service. Paths are held as text.
#[derive(Clone, Debug)]
pub struct ServiceConfig {
    pub application: String,
    pub app_directory: Option<String>,
    pub app_parameters: Option<String>,
    pub display_name: Option<String>,
    pub description: Option<String>,
    pub start_type: ServiceStartType,
    pub object_name: Option<String>,
    pub dependencies: Vec<String>,
    pub app_priority: ProcessPriority,
    pub app_affinity: Option<String>,
    pub app_no_console: bool,
    /// Stop methods to skip: 1 console, 2 window, 4 terminate, 8 kill.
    pub app_stop_method_skip: u32,
    pub app_stop_method_console: u32,
    pub app_stop_method_window: u32,
    pub app_stop_method_threads: u32,
    /// Shortest uptime, in milliseconds, that counts as a healthy run.
    pub app_throttle: u32,
    pub app_exit_default: ExitAction,
    pub app_restart_delay: u32,
    pub app_stdout: Option<String>,
    pub app_stderr: Option<String>,
    pub app_stdin: Option<String>,
    pub app_rotate_files: bool,
    pub app_rotate_online: bool,
    pub app_rotate_seconds: u32,
    pub app_rotate_bytes: u64,
    pub app_environment: Vec<String>,
    /// `KEY=VALUE` entries added to the inherited environment, in order.
    pub app_environment_extra: Vec<String>,
}

impl ServiceConfig {
    /// The values that a configuration starts from.
    pub open spec fn is_default(self) -> bool {
        &&& self.application@.len() == 0
        &&& self.has_default_settings()
    }

    /// Every field but the application path holds its default.
    pub open spec fn has_default_settings(self) -> bool {
        &&& self.app_directory is None
        &&& self.app_parameters is None
        &&& self.display_name is None
        &&& self.description is None
        &&& self.start_type == ServiceStartType::Manual
        &&& self.object_name is None
        &&& self.dependencies@.len() == 0
        &&& self.app_priority == ProcessPriority::Normal
        &&& self.app_affinity is None
        &&& !self.app_no_console
        &&& self.app_stop_method_skip == 0
        &&& self.app_stop_method_console == 1500
        &&& self.app_stop_method_window == 1500
        &&& self.app_stop_method_threads == 1500
        &&& self.app_throttle == 1500
        &&& self.app_exit_default == ExitAction::Restart
        &&& self.app_restart_delay == 0
        &&& self.app_stdout is None
        &&& self.app_stderr is None
        &&& self.app_stdin is None
        &&& !self.app_rotate_files
        &&& !self.app_rotate_online
        &&& self.app_rotate_seconds == 86400
        &&& self.app_rotate_bytes == 1048576
        &&& self.app_environment@.len() == 0
        &&& self.app_environment_extra@.len() == 0
    }
}

impl Default for ServiceConfig {
    fn default() -> (r: ServiceConfig)
        ensures
            r.is_default(),
    {
        ServiceConfig {
            application: String::new(),
            app_directory: None,
            app_parameters: None,
            display_name: None,
            description: None,
            start_type: ServiceStartType::Manual,
            object_name: None,
            dependencies: Vec::new(),
            app_priority: ProcessPriority::Normal,
            app_affinity: None,
            app_no_console: false,
            app_stop_method_skip: 0,
            app_stop_method_console: 1500,
            app_stop_method_window: 1500,
            app_stop_method_threads: 1500,
            app_throttle: 1500,
            app_exit_default: ExitAction::Restart,
            app_restart_delay: 0,
            app_stdout: None,
            app_stderr: None,
            app_stdin: None,
            app_rotate_files: false,
            app_rotate_online: false,
            app_rotate_seconds: 86400,
            app_rotate_bytes: 1048576,
            app_environment: Vec::new(),
            app_environment_extra: Vec::new(),
        }
    }
}

/// How the service control manager starts the service.
#[derive(Clone, Copy, Debug, PartialEq, Eq, Structural)]
pub enum ServiceStartType {
    Auto,
    Manual,
    Disabled,
}

/// Scheduling priority class of the child process.
#[derive(Clone, Copy, Debug, PartialEq, Eq, Structural)]
pub enum ProcessPriority {
    Realtime,
    High,
    AboveNormal,
    Normal,
    BelowNormal,
    Idle,
}

/// What the supervisor does when the child exits with a code.
#[derive(Clone, Copy, Debug, PartialEq, Eq, Structural)]
pub enum ExitAction {
    Restart,
    Ignore,
    Exit,
}

impl ServiceStartType {
    pub open spec fn spec_windows_value(self) -> u32 {
        match self {
            ServiceStartType::Auto => 2,
            ServiceStartType::Manual => 3,
            ServiceStartType::Disabled => 4,
        }
    }

    /// The start type named by an uppercase word.
    pub open spec fn named(u: Seq<char>) -> Option<ServiceStartType> {
        if u == "AUTO"@ || u == "SERVICE_AUTO_START"@ {
            Some(ServiceStartType::Auto)
        } else if u == "MANUAL"@ || u == "DEMAND"@ || u == "SERVICE_DEMAND_START"@ {
            Some(ServiceStartType::Manual)
        } else if u == "DISABLED"@ || u == "SERVICE_DISABLED"@ {
            Some(ServiceStartType::Disabled)
        } else {
            None
        }
    }

    /// The operating system's code for this start type.
    pub fn to_windows_value(&self) -> (r: u32)
        ensures
            r == self.spec_windows_value(),
    {
        match self {
            ServiceStartType::Auto => 2,
            ServiceStartType::Manual => 3,
            ServiceStartType::Disabled => 4,
        }
    }

    /// The start type named by `u`, which is already in uppercase.
    pub fn from_upper(u: &str) -> (r: Option<ServiceStartType>)
        ensures
            r == ServiceStartType::named(u@),
    {
        if same_text(u, "AUTO") || same_text(u, "SERVICE_AUTO_START") {
            Some(ServiceStartType::Auto)
        } else if same_text(u, "MANUAL") || same_text(u, "DEMAND") || same_text(
            u,
            "SERVICE_DEMAND_START",
        ) {
            Some(ServiceStartType::Manual)
        } else if same_text(u, "DISABLED") || same_text(u, "SERVICE_DISABLED") {
            Some(ServiceStartType::Disabled)
        } else {
            None
        }
    }

    /// The start type named by `s`, in any case.
    pub fn from_str(s: &str) -> (r: Option<ServiceStartType>)
        ensures
            r == ServiceStartType::named(folded(s@)),
    {
        let u = fold_upper(s);
        ServiceStartType::from_upper(u.as_str())
    }
}

impl ProcessPriority {
    pub open spec fn spec_windows_value(self) -> u32 {
        match self {
            ProcessPriority::Realtime => 0x100,
            ProcessPriority::High => 0x80,
            ProcessPriority::AboveNormal => 0x8000,
            ProcessPriority::Normal => 0x20,
            ProcessPriority::BelowNormal => 0x4000,
            ProcessPriority::Idle => 0x40,
        }
    }

    /// The priority named by an uppercase word.
    pub open spec fn named(u: Seq<char>) -> Option<ProcessPriority> {
        if u == "REALTIME"@ || u == "REALTIME_PRIORITY_CLASS"@ {
            Some(ProcessPriority::Realtime)
        } else if u == "HIGH"@ || u == "HIGH_PRIORITY_CLASS"@ {
            Some(ProcessPriority::High)
        } else if u == "ABOVENORMAL"@ || u == "ABOVE_NORMAL_PRIORITY_CLASS"@ {
            Some(ProcessPriority::AboveNormal)
        } else if u == "NORMAL"@ || u == "NORMAL_PRIORITY_CLASS"@ {
            Some(ProcessPriority::Normal)
        } else if u == "BELOWNORMAL"@ || u == "BELOW_NORMAL_PRIORITY_CLASS"@ {
            Some(ProcessPriority::BelowNormal)
        } else if u == "IDLE"@ || u == "IDLE_PRIORITY_CLASS"@ {
            Some(ProcessPriority::Idle)
        } else {
            None
        }
    }

    /// The priority whose class code is `v`; unknown codes mean normal.
    pub open spec fn from_spec_windows_value(v: u32) -> ProcessPriority {
        if v == 0x100 {
            ProcessPriority::Realtime
        } else if v == 0x80 {
            ProcessPriority::High
        } else if v == 0x8000 {
            ProcessPriority::AboveNormal
        } else if v == 0x4000 {
            ProcessPriority::BelowNormal
        } else if v == 0x40 {
            ProcessPriority::Idle
        } else {
            ProcessPriority::Normal
        }
    }

    /// The operating system's priority class code.
    pub fn to_windows_value(&self) -> (r: u32)
        ensures
            r == self.spec_windows_value(),
    {
        match self {
            ProcessPriority::Realtime => 0x100,
            ProcessPriority::High => 0x80,
            ProcessPriority::AboveNormal => 0x8000,
            ProcessPriority::Normal => 0x20,
            ProcessPriority::BelowNormal => 0x4000,
            ProcessPriority::Idle => 0x40,
        }
    }

    /// The priority whose class code is `v`; unknown codes mean normal.
    pub fn from_windows_value(v: u32) -> (r: ProcessPriority)
        ensures
            r == ProcessPriority::from_spec_windows_value(v),
    {
        if v == 0x100 {
            ProcessPriority::Realtime
        } else if v == 0x80 {
            ProcessPriority::High
        } else if v == 0x8000 {
            ProcessPriority::AboveNormal
        } else if v == 0x4000 {
            ProcessPriority::BelowNormal
        } else if v == 0x40 {
            ProcessPriority::Idle
        } else {
            ProcessPriority::Normal
        }
    }

    /// The priority named by `u`, which is already in uppercase.
    pub fn from_upper(u: &str) -> (r: Option<ProcessPriority>)
        ensures
            r == ProcessPriority::named(u@),
    {
        if same_text(u, "REALTIME") || same_text(u, "REALTIME_PRIORITY_CLASS") {
            Some(ProcessPriority::Realtime)
        } else if same_text(u, "HIGH") || same_text(u, "HIGH_PRIORITY_CLASS") {
            Some(ProcessPriority::High)
        } else if same_text(u, "ABOVENORMAL") || same_text(u, "ABOVE_NORMAL_PRIORITY_CLASS") {
            Some(ProcessPriority::AboveNormal)
        } else if same_text(u, "NORMAL") || same_text(u, "NORMAL_PRIORITY_CLASS") {
            Some(ProcessPriority::Normal)
        } else if same_text(u, "BELOWNORMAL") || same_text(u, "BELOW_NORMAL_PRIORITY_CLASS") {
            Some(ProcessPriority::BelowNormal)
        } else if same_text(u, "IDLE") || same_text(u, "IDLE_PRIORITY_CLASS") {
            Some(ProcessPriority::Idle)
        } else {
            None
        }
    }

    /// The priority named by `s`, in any case.
    pub fn from_str(s: &str) -> (r: Option<ProcessPriority>)
        ensures
            r == ProcessPriority::named(folded(s@)),
    {
        let u = fold_upper(s);
        ProcessPriority::from_upper(u.as_str())
    }
}

impl ExitAction {
    /// The action named by an uppercase word.
    pub open spec fn named(u: Seq<char>) -> Option<ExitAction> {
        if u == "RESTART"@ {
            Some(ExitAction::Restart)
        } else if u == "IGNORE"@ {
            Some(ExitAction::Ignore)
        } else if u == "EXIT"@ {
            Some(ExitAction::Exit)
        } else {
            None
        }
    }

    pub open spec fn spec_name(self) -> Seq<char> {
        match self {
            ExitAction::Restart => "Restart"@,
            ExitAction::Ignore => "Ignore"@,
            ExitAction::Exit => "Exit"@,
        }
    }

    /// The action named by `u`, which is already in uppercase.
    pub fn from_upper(u: &str) -> (r: Option<ExitAction>)
        ensures
            r == ExitAction::named(u@),
    {
        if same_text(u, "RESTART") {
            Some(ExitAction::Restart)
        } else if same_text(u, "IGNORE") {
            Some(ExitAction::Ignore)
        } else if same_text(u, "EXIT") {
            Some(ExitAction::Exit)
        } else {
            None
        }
    }

    /// The action named by `s`, in any case.
    pub fn from_str(s: &str) -> (r: Option<ExitAction>)
        ensures
            r == ExitAction::named(folded(s@)),
    {
        let u = fold_upper(s);
        ExitAction::from_upper(u.as_str())
    }

    /// The action's stored name.
    pub fn to_str(&self) -> (r: &'static str)
        ensures
            r@ == self.spec_name(),
    {
        match self {
            ExitAction::Restart => "Restart",
            ExitAction::Ignore => "Ignore",
            ExitAction::Exit => "Exit",
        }
    }
}

} // verus!

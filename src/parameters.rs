use vstd::prelude::*;
use crate::cli::{ExitAction, ProcessPriority, ServiceConfig, ServiceStartType};
use crate::numbers::{decimal_digits, decimal_string, parse_u32, parsed_u32};
use crate::text::{fold_upper, folded, same_text};

verus! {

/// The parameters that can be set and read by name.
#[derive(Clone, Copy, Debug, PartialEq, Eq, Structural)]
pub enum ParameterKey {
    Application,
    AppDirectory,
    AppParameters,
    DisplayName,
    Description,
    Start,
    AppPriority,
    AppNoConsole,
    AppThrottle,
    AppStdout,
    AppStderr,
    AppStdin,
    AppStopMethod,
    AppStopMethodConsole,
    AppStopMethodWindow,
    AppStopMethodThreads,
    AppRestartDelay,
    AppExitAction,
}

/// Why a parameter could not be set or read.
#[derive(Clone, Copy, Debug, PartialEq, Eq, Structural)]
pub enum ParameterError {
    /// No parameter has that name.
    Unknown,
    /// The value does not fit the parameter.
    Invalid(ParameterKey),
}

pub open spec fn opt_view(o: Option<String>) -> Option<Seq<char>> {
    match o {
        Some(s) => Some(s@),
        None => None,
    }
}

/// A text value as an optional setting: empty text means unset.
pub open spec fn text_opt(v: Seq<char>) -> Option<Seq<char>> {
    if v.len() == 0 {
        None
    } else {
        Some(v)
    }
}

pub open spec fn opt_text(o: Option<String>) -> Seq<char> {
    match o {
        Some(s) => s@,
        None => Seq::empty(),
    }
}

impl ParameterKey {
    /// The parameter named by an uppercase word.
    pub open spec fn named(u: Seq<char>) -> Option<ParameterKey> {
        if u == "APPLICATION"@ {
            Some(ParameterKey::Application)
        } else if u == "APPDIRECTORY"@ {
            Some(ParameterKey::AppDirectory)
        } else if u == "APPPARAMETERS"@ {
            Some(ParameterKey::AppParameters)
        } else if u == "DISPLAYNAME"@ {
            Some(ParameterKey::DisplayName)
        } else if u == "DESCRIPTION"@ {
            Some(ParameterKey::Description)
        } else if u == "START"@ {
            Some(ParameterKey::Start)
        } else if u == "APPPRIORITY"@ {
            Some(ParameterKey::AppPriority)
        } else if u == "APPNOCONSOLE"@ {
            Some(ParameterKey::AppNoConsole)
        } else if u == "APPTHROTTLE"@ {
            Some(ParameterKey::AppThrottle)
        } else if u == "APPSTDOUT"@ {
            Some(ParameterKey::AppStdout)
        } else if u == "APPSTDERR"@ {
            Some(ParameterKey::AppStderr)
        } else if u == "APPSTDIN"@ {
            Some(ParameterKey::AppStdin)
        } else if u == "APPSTOPMETHOD"@ {
            Some(ParameterKey::AppStopMethod)
        } else if u == "APPSTOPMETHOD_CONSOLE"@ {
            Some(ParameterKey::AppStopMethodConsole)
        } else if u == "APPSTOPMETHOD_WINDOW"@ {
            Some(ParameterKey::AppStopMethodWindow)
        } else if u == "APPSTOPMETHOD_THREADS"@ {
            Some(ParameterKey::AppStopMethodThreads)
        } else if u == "APPRESTARTDELAY"@ {
            Some(ParameterKey::AppRestartDelay)
        } else if u == "APPEXITACTION"@ {
            Some(ParameterKey::AppExitAction)
        } else {
            None
        }
    }

    /// The parameter named by `u`, which is already in uppercase.
    pub fn from_upper(u: &str) -> (r: Option<ParameterKey>)
        ensures
            r == ParameterKey::named(u@),
    {
        if same_text(u, "APPLICATION") {
            Some(ParameterKey::Application)
        } else if same_text(u, "APPDIRECTORY") {
            Some(ParameterKey::AppDirectory)
        } else if same_text(u, "APPPARAMETERS") {
            Some(ParameterKey::AppParameters)
        } else if same_text(u, "DISPLAYNAME") {
            Some(ParameterKey::DisplayName)
        } else if same_text(u, "DESCRIPTION") {
            Some(ParameterKey::Description)
        } else if same_text(u, "START") {
            Some(ParameterKey::Start)
        } else if same_text(u, "APPPRIORITY") {
            Some(ParameterKey::AppPriority)
        } else if same_text(u, "APPNOCONSOLE") {
            Some(ParameterKey::AppNoConsole)
        } else if same_text(u, "APPTHROTTLE") {
            Some(ParameterKey::AppThrottle)
        } else if same_text(u, "APPSTDOUT") {
            Some(ParameterKey::AppStdout)
        } else if same_text(u, "APPSTDERR") {
            Some(ParameterKey::AppStderr)
        } else if same_text(u, "APPSTDIN") {
            Some(ParameterKey::AppStdin)
        } else if same_text(u, "APPSTOPMETHOD") {
            Some(ParameterKey::AppStopMethod)
        } else if same_text(u, "APPSTOPMETHOD_CONSOLE") {
            Some(ParameterKey::AppStopMethodConsole)
        } else if same_text(u, "APPSTOPMETHOD_WINDOW") {
            Some(ParameterKey::AppStopMethodWindow)
        } else if same_text(u, "APPSTOPMETHOD_THREADS") {
            Some(ParameterKey::AppStopMethodThreads)
        } else if same_text(u, "APPRESTARTDELAY") {
            Some(ParameterKey::AppRestartDelay)
        } else if same_text(u, "APPEXITACTION") {
            Some(ParameterKey::AppExitAction)
        } else {
            None
        }
    }

    /// The parameter named by `s`, in any case.
    pub fn from_str(s: &str) -> (r: Option<ParameterKey>)
        ensures
            r == ParameterKey::named(folded(s@)),
    {
        let u = fold_upper(s);
        ParameterKey::from_upper(u.as_str())
    }

    /// The text that resets a parameter.
    pub open spec fn default_text(self) -> Seq<char> {
        match self {
            ParameterKey::AppThrottle => "1500"@,
            ParameterKey::AppStopMethod => "0"@,
            ParameterKey::AppStopMethodConsole => "1500"@,
            ParameterKey::AppStopMethodWindow => "1500"@,
            ParameterKey::AppStopMethodThreads => "1500"@,
            ParameterKey::AppRestartDelay => "0"@,
            ParameterKey::AppNoConsole => "0"@,
            ParameterKey::AppPriority => "NORMAL_PRIORITY_CLASS"@,
            ParameterKey::Start => "SERVICE_DEMAND_START"@,
            ParameterKey::AppExitAction => "Restart"@,
            _ => Seq::empty(),
        }
    }

    /// The text that resets a parameter.
    pub fn default_value(&self) -> (r: String)
        ensures
            r@ == self.default_text(),
    {
        match self {
            ParameterKey::AppThrottle => "1500".to_owned(),
            ParameterKey::AppStopMethod => "0".to_owned(),
            ParameterKey::AppStopMethodConsole => "1500".to_owned(),
            ParameterKey::AppStopMethodWindow => "1500".to_owned(),
            ParameterKey::AppStopMethodThreads => "1500".to_owned(),
            ParameterKey::AppRestartDelay => "0".to_owned(),
            ParameterKey::AppNoConsole => "0".to_owned(),
            ParameterKey::AppPriority => "NORMAL_PRIORITY_CLASS".to_owned(),
            ParameterKey::Start => "SERVICE_DEMAND_START".to_owned(),
            ParameterKey::AppExitAction => "Restart".to_owned(),
            _ => String::new(),
        }
    }
}

/// A number parameter: set from `v` when it is a `u32`, else refused.
pub open spec fn number_set(
    old: ServiceConfig,
    new: ServiceConfig,
    key: ParameterKey,
    v: Seq<char>,
    r: Result<(), ParameterError>,
    updated: ServiceConfig,
) -> bool {
    match parsed_u32(v) {
        Some(n) => r == Ok::<(), ParameterError>(()) && new == updated,
        None => r == Err::<(), ParameterError>(ParameterError::Invalid(key)) && new == old,
    }
}

/// What setting parameter `key` to the text `v` does: `new` is the
/// configuration afterwards and `r` the result.
pub open spec fn set_outcome(
    old: ServiceConfig,
    new: ServiceConfig,
    key: ParameterKey,
    v: Seq<char>,
    r: Result<(), ParameterError>,
) -> bool {
    let ok = r == Ok::<(), ParameterError>(());
    let refused = r == Err::<(), ParameterError>(ParameterError::Invalid(key)) && new == old;
    match key {
        ParameterKey::Application => ok && new.application@ == v && new == ServiceConfig {
            application: new.application,
            ..old
        },
        ParameterKey::AppDirectory => ok && opt_view(new.app_directory) == text_opt(v) && new
            == ServiceConfig { app_directory: new.app_directory, ..old },
        ParameterKey::AppParameters => ok && opt_view(new.app_parameters) == text_opt(v) && new
            == ServiceConfig { app_parameters: new.app_parameters, ..old },
        ParameterKey::DisplayName => ok && opt_view(new.display_name) == text_opt(v) && new
            == ServiceConfig { display_name: new.display_name, ..old },
        ParameterKey::Description => ok && opt_view(new.description) == text_opt(v) && new
            == ServiceConfig { description: new.description, ..old },
        ParameterKey::AppStdout => ok && opt_view(new.app_stdout) == text_opt(v) && new
            == ServiceConfig { app_stdout: new.app_stdout, ..old },
        ParameterKey::AppStderr => ok && opt_view(new.app_stderr) == text_opt(v) && new
            == ServiceConfig { app_stderr: new.app_stderr, ..old },
        ParameterKey::AppStdin => ok && opt_view(new.app_stdin) == text_opt(v) && new
            == ServiceConfig { app_stdin: new.app_stdin, ..old },
        ParameterKey::Start => match ServiceStartType::named(folded(v)) {
            Some(t) => ok && new == ServiceConfig { start_type: t, ..old },
            None => refused,
        },
        ParameterKey::AppPriority => match ProcessPriority::named(folded(v)) {
            Some(p) => ok && new == ServiceConfig { app_priority: p, ..old },
            None => refused,
        },
        ParameterKey::AppExitAction => match ExitAction::named(folded(v)) {
            Some(a) => ok && new == ServiceConfig { app_exit_default: a, ..old },
            None => refused,
        },
        ParameterKey::AppNoConsole => ok && new == ServiceConfig {
            app_no_console: v != "0"@,
            ..old
        },
        ParameterKey::AppThrottle => number_set(
            old,
            new,
            key,
            v,
            r,
            ServiceConfig { app_throttle: parsed_u32(v).unwrap(), ..old },
        ),
        ParameterKey::AppStopMethod => number_set(
            old,
            new,
            key,
            v,
            r,
            ServiceConfig { app_stop_method_skip: parsed_u32(v).unwrap(), ..old },
        ),
        ParameterKey::AppStopMethodConsole => number_set(
            old,
            new,
            key,
            v,
            r,
            ServiceConfig { app_stop_method_console: parsed_u32(v).unwrap(), ..old },
        ),
        ParameterKey::AppStopMethodWindow => number_set(
            old,
            new,
            key,
            v,
            r,
            ServiceConfig { app_stop_method_window: parsed_u32(v).unwrap(), ..old },
        ),
        ParameterKey::AppStopMethodThreads => number_set(
            old,
            new,
            key,
            v,
            r,
            ServiceConfig { app_stop_method_threads: parsed_u32(v).unwrap(), ..old },
        ),
        ParameterKey::AppRestartDelay => number_set(
            old,
            new,
            key,
            v,
            r,
            ServiceConfig { app_restart_delay: parsed_u32(v).unwrap(), ..old },
        ),
    }
}

fn optional_text(value: &str) -> (r: Option<String>)
    ensures
        opt_view(r) == text_opt(value@),
{
    if value.unicode_len() == 0 {
        None
    } else {
        Some(value.to_owned())
    }
}

/// Sets parameter `key` of `config` from the text `value`.
pub fn apply_parameter(config: &mut ServiceConfig, key: ParameterKey, value: &str) -> (r: Result<
    (),
    ParameterError,
>)
    ensures
        set_outcome(*old(config), *final(config), key, value@, r),
{
    match key {
        ParameterKey::Application => {
            config.application = value.to_owned();
        },
        ParameterKey::AppDirectory => {
            config.app_directory = optional_text(value);
        },
        ParameterKey::AppParameters => {
            config.app_parameters = optional_text(value);
        },
        ParameterKey::DisplayName => {
            config.display_name = optional_text(value);
        },
        ParameterKey::Description => {
            config.description = optional_text(value);
        },
        ParameterKey::AppStdout => {
            config.app_stdout = optional_text(value);
        },
        ParameterKey::AppStderr => {
            config.app_stderr = optional_text(value);
        },
        ParameterKey::AppStdin => {
            config.app_stdin = optional_text(value);
        },
        ParameterKey::Start => match ServiceStartType::from_str(value) {
            Some(t) => {
                config.start_type = t;
            },
            None => {
                return Err(ParameterError::Invalid(key));
            },
        },
        ParameterKey::AppPriority => match ProcessPriority::from_str(value) {
            Some(p) => {
                config.app_priority = p;
            },
            None => {
                return Err(ParameterError::Invalid(key));
            },
        },
        ParameterKey::AppExitAction => match ExitAction::from_str(value) {
            Some(a) => {
                config.app_exit_default = a;
            },
            None => {
                return Err(ParameterError::Invalid(key));
            },
        },
        ParameterKey::AppNoConsole => {
            config.app_no_console = !same_text(value, "0");
        },
        _ => {
            let n = match parse_u32(value) {
                Some(n) => n,
                None => {
                    return Err(ParameterError::Invalid(key));
                },
            };
            match key {
                ParameterKey::AppThrottle => {
                    config.app_throttle = n;
                },
                ParameterKey::AppStopMethod => {
                    config.app_stop_method_skip = n;
                },
                ParameterKey::AppStopMethodConsole => {
                    config.app_stop_method_console = n;
                },
                ParameterKey::AppStopMethodWindow => {
                    config.app_stop_method_window = n;
                },
                ParameterKey::AppStopMethodThreads => {
                    config.app_stop_method_threads = n;
                },
                _ => {
                    config.app_restart_delay = n;
                },
            }
        },
    }
    Ok(())
}

/// Sets the parameter named `parameter`, in any case, from the text
/// `value`; an unknown name changes nothing.
pub fn set_service_parameter(config: &mut ServiceConfig, parameter: &str, value: &str) -> (r:
    Result<(), ParameterError>)
    ensures
        match ParameterKey::named(folded(parameter@)) {
            Some(k) => set_outcome(*old(config), *final(config), k, value@, r),
            None => r == Err::<(), ParameterError>(ParameterError::Unknown) && *final(config)
                == *old(config),
        },
{
    match ParameterKey::from_str(parameter) {
        Some(k) => apply_parameter(config, k, value),
        None => Err(ParameterError::Unknown),
    }
}

pub open spec fn start_type_text(t: ServiceStartType) -> Seq<char> {
    match t {
        ServiceStartType::Auto => "SERVICE_AUTO_START"@,
        ServiceStartType::Manual => "SERVICE_DEMAND_START"@,
        ServiceStartType::Disabled => "SERVICE_DISABLED"@,
    }
}

pub open spec fn priority_text(p: ProcessPriority) -> Seq<char> {
    match p {
        ProcessPriority::Realtime => "REALTIME_PRIORITY_CLASS"@,
        ProcessPriority::High => "HIGH_PRIORITY_CLASS"@,
        ProcessPriority::AboveNormal => "ABOVE_NORMAL_PRIORITY_CLASS"@,
        ProcessPriority::Normal => "NORMAL_PRIORITY_CLASS"@,
        ProcessPriority::BelowNormal => "BELOW_NORMAL_PRIORITY_CLASS"@,
        ProcessPriority::Idle => "IDLE_PRIORITY_CLASS"@,
    }
}

/// The text of parameter `key` of `c`.
pub open spec fn value_text(c: ServiceConfig, key: ParameterKey) -> Seq<char> {
    match key {
        ParameterKey::Application => c.application@,
        ParameterKey::AppDirectory => opt_text(c.app_directory),
        ParameterKey::AppParameters => opt_text(c.app_parameters),
        ParameterKey::DisplayName => opt_text(c.display_name),
        ParameterKey::Description => opt_text(c.description),
        ParameterKey::AppStdout => opt_text(c.app_stdout),
        ParameterKey::AppStderr => opt_text(c.app_stderr),
        ParameterKey::AppStdin => opt_text(c.app_stdin),
        ParameterKey::Start => start_type_text(c.start_type),
        ParameterKey::AppPriority => priority_text(c.app_priority),
        ParameterKey::AppNoConsole => if c.app_no_console {
            "1"@
        } else {
            "0"@
        },
        ParameterKey::AppThrottle => decimal_digits(c.app_throttle as nat),
        ParameterKey::AppStopMethod => decimal_digits(c.app_stop_method_skip as nat),
        ParameterKey::AppStopMethodConsole => decimal_digits(c.app_stop_method_console as nat),
        ParameterKey::AppStopMethodWindow => decimal_digits(c.app_stop_method_window as nat),
        ParameterKey::AppStopMethodThreads => decimal_digits(c.app_stop_method_threads as nat),
        ParameterKey::AppRestartDelay => decimal_digits(c.app_restart_delay as nat),
        ParameterKey::AppExitAction => c.app_exit_default.spec_name(),
    }
}

fn text_or_empty(o: &Option<String>) -> (r: String)
    ensures
        r@ == opt_text(*o),
{
    match o {
        Some(s) => s.clone(),
        None => String::new(),
    }
}

/// The text of parameter `key` of `config`.
pub fn parameter_value(config: &ServiceConfig, key: ParameterKey) -> (r: String)
    ensures
        r@ == value_text(*config, key),
{
    match key {
        ParameterKey::Application => config.application.clone(),
        ParameterKey::AppDirectory => text_or_empty(&config.app_directory),
        ParameterKey::AppParameters => text_or_empty(&config.app_parameters),
        ParameterKey::DisplayName => text_or_empty(&config.display_name),
        ParameterKey::Description => text_or_empty(&config.description),
        ParameterKey::AppStdout => text_or_empty(&config.app_stdout),
        ParameterKey::AppStderr => text_or_empty(&config.app_stderr),
        ParameterKey::AppStdin => text_or_empty(&config.app_stdin),
        ParameterKey::Start => match config.start_type {
            ServiceStartType::Auto => "SERVICE_AUTO_START".to_owned(),
            ServiceStartType::Manual => "SERVICE_DEMAND_START".to_owned(),
            ServiceStartType::Disabled => "SERVICE_DISABLED".to_owned(),
        },
        ParameterKey::AppPriority => match config.app_priority {
            ProcessPriority::Realtime => "REALTIME_PRIORITY_CLASS".to_owned(),
            ProcessPriority::High => "HIGH_PRIORITY_CLASS".to_owned(),
            ProcessPriority::AboveNormal => "ABOVE_NORMAL_PRIORITY_CLASS".to_owned(),
            ProcessPriority::Normal => "NORMAL_PRIORITY_CLASS".to_owned(),
            ProcessPriority::BelowNormal => "BELOW_NORMAL_PRIORITY_CLASS".to_owned(),
            ProcessPriority::Idle => "IDLE_PRIORITY_CLASS".to_owned(),
        },
        ParameterKey::AppNoConsole => if config.app_no_console {
            "1".to_owned()
        } else {
            "0".to_owned()
        },
        ParameterKey::AppThrottle => decimal_string(config.app_throttle),
        ParameterKey::AppStopMethod => decimal_string(config.app_stop_method_skip),
        ParameterKey::AppStopMethodConsole => decimal_string(config.app_stop_method_console),
        ParameterKey::AppStopMethodWindow => decimal_string(config.app_stop_method_window),
        ParameterKey::AppStopMethodThreads => decimal_string(config.app_stop_method_threads),
        ParameterKey::AppRestartDelay => decimal_string(config.app_restart_delay),
        ParameterKey::AppExitAction => config.app_exit_default.to_str().to_owned(),
    }
}

/// The text of the parameter named `parameter`, in any case.
pub fn get_service_parameter(config: &ServiceConfig, parameter: &str) -> (r: Result<
    String,
    ParameterError,
>)
    ensures
        match ParameterKey::named(folded(parameter@)) {
            Some(k) => r is Ok && r->Ok_0@ == value_text(*config, k),
            None => r == Err::<String, ParameterError>(ParameterError::Unknown),
        },
{
    match ParameterKey::from_str(parameter) {
        Some(k) => Ok(parameter_value(config, k)),
        None => Err(ParameterError::Unknown),
    }
}

/// The default text of the parameter named by an uppercase word; empty for
/// unknown names.
pub open spec fn default_text_of(u: Seq<char>) -> Seq<char> {
    match ParameterKey::named(u) {
        Some(k) => k.default_text(),
        None => Seq::empty(),
    }
}

/// The default text of the parameter named by `u`, which is already in
/// uppercase.
pub fn default_parameter_value_of_upper(u: &str) -> (r: String)
    ensures
        r@ == default_text_of(u@),
{
    match ParameterKey::from_upper(u) {
        Some(k) => k.default_value(),
        None => String::new(),
    }
}

/// The text that resets the parameter named `parameter`, in any case; empty
/// for unknown names.
pub fn get_default_parameter_value(parameter: &str) -> (r: String)
    ensures
        r@ == default_text_of(folded(parameter@)),
{
    let u = fold_upper(parameter);
    default_parameter_value_of_upper(u.as_str())
}

} // verus!

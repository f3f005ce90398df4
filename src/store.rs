use vstd::prelude::*;
use crate::cli::{ExitAction, ProcessPriority, ServiceConfig};
use crate::parameters::{opt_view, text_opt};
use crate::text::folded;

verus! {

/// The values persisted for a service, as the store holds them: `None`
/// where a value is absent. Numbers are 32-bit words.
#[derive(Clone, Debug)]
pub struct StoredParameters {
    pub application: Option<String>,
    pub app_directory: Option<String>,
    pub app_parameters: Option<String>,
    pub app_priority: Option<u32>,
    pub app_no_console: Option<u32>,
    pub app_throttle: Option<u32>,
    pub app_restart_delay: Option<u32>,
    pub app_stop_method_skip: Option<u32>,
    pub app_stop_method_console: Option<u32>,
    pub app_stop_method_window: Option<u32>,
    pub app_stop_method_threads: Option<u32>,
    pub app_exit_default: Option<String>,
    pub app_stdout: Option<String>,
    pub app_stderr: Option<String>,
    pub app_stdin: Option<String>,
}

/// Why a configuration could not be loaded.
#[derive(Clone, Copy, Debug, PartialEq, Eq, Structural)]
pub enum ConfigError {
    /// The service has no stored parameters.
    Absent,
    /// The application path is missing or empty.
    MissingApplication,
}

pub open spec fn word_or(o: Option<u32>, d: u32) -> u32 {
    match o {
        Some(v) => v,
        None => d,
    }
}

/// A stored text as an optional setting: absent or empty means unset.
pub open spec fn stored_text(o: Option<String>) -> Option<Seq<char>> {
    match o {
        Some(s) => text_opt(s@),
        None => None,
    }
}

pub open spec fn stored_exit_action(o: Option<String>) -> ExitAction {
    match o {
        Some(s) => match ExitAction::named(folded(s@)) {
            Some(a) => a,
            None => ExitAction::Restart,
        },
        None => ExitAction::Restart,
    }
}

/// The configuration that stored values give: each present value sets its
/// field, every other field keeps its default.
pub open spec fn loaded_from(c: ServiceConfig, p: StoredParameters) -> bool {
    &&& c.application@ == p.application->Some_0@
    &&& opt_view(c.app_directory) == stored_text(p.app_directory)
    &&& opt_view(c.app_parameters) == stored_text(p.app_parameters)
    &&& c.app_priority == match p.app_priority {
        Some(v) => ProcessPriority::from_spec_windows_value(v),
        None => ProcessPriority::Normal,
    }
    &&& c.app_no_console == (word_or(p.app_no_console, 0) != 0)
    &&& c.app_throttle == word_or(p.app_throttle, 1500)
    &&& c.app_restart_delay == word_or(p.app_restart_delay, 0)
    &&& c.app_stop_method_skip == word_or(p.app_stop_method_skip, 0)
    &&& c.app_stop_method_console == word_or(p.app_stop_method_console, 1500)
    &&& c.app_stop_method_window == word_or(p.app_stop_method_window, 1500)
    &&& c.app_stop_method_threads == word_or(p.app_stop_method_threads, 1500)
    &&& c.app_exit_default == stored_exit_action(p.app_exit_default)
    &&& opt_view(c.app_stdout) == stored_text(p.app_stdout)
    &&& opt_view(c.app_stderr) == stored_text(p.app_stderr)
    &&& opt_view(c.app_stdin) == stored_text(p.app_stdin)
    &&& c.display_name is None
    &&& c.description is None
    &&& c.start_type == crate::cli::ServiceStartType::Manual
    &&& c.object_name is None
    &&& c.dependencies@.len() == 0
    &&& c.app_affinity is None
    &&& !c.app_rotate_files
    &&& !c.app_rotate_online
    &&& c.app_rotate_seconds == 86400
    &&& c.app_rotate_bytes == 1048576
    &&& c.app_environment@.len() == 0
    &&& c.app_environment_extra@.len() == 0
}

/// The values that saving a configuration writes.
pub open spec fn stored_from(p: StoredParameters, c: ServiceConfig) -> bool {
    &&& opt_view(p.application) == Some(c.application@)
    &&& opt_view(p.app_directory) == opt_view(c.app_directory)
    &&& opt_view(p.app_parameters) == opt_view(c.app_parameters)
    &&& p.app_priority == Some(c.app_priority.spec_windows_value())
    &&& p.app_no_console == Some(if c.app_no_console {
        1u32
    } else {
        0u32
    })
    &&& p.app_throttle == Some(c.app_throttle)
    &&& p.app_restart_delay == Some(c.app_restart_delay)
    &&& p.app_stop_method_skip == Some(c.app_stop_method_skip)
    &&& p.app_stop_method_console == Some(c.app_stop_method_console)
    &&& p.app_stop_method_window == Some(c.app_stop_method_window)
    &&& p.app_stop_method_threads == Some(c.app_stop_method_threads)
    &&& opt_view(p.app_exit_default) == Some(c.app_exit_default.spec_name())
    &&& opt_view(p.app_stdout) == opt_view(c.app_stdout)
    &&& opt_view(p.app_stderr) == opt_view(c.app_stderr)
    &&& opt_view(p.app_stdin) == opt_view(c.app_stdin)
}

/// The configuration holds nothing that the store would read back
/// differently: an application path, and no optional text that is empty.
pub open spec fn persistable(c: ServiceConfig) -> bool {
    &&& c.application@.len() > 0
    &&& stored_text(c.app_directory) == opt_view(c.app_directory)
    &&& stored_text(c.app_parameters) == opt_view(c.app_parameters)
    &&& stored_text(c.app_stdout) == opt_view(c.app_stdout)
    &&& stored_text(c.app_stderr) == opt_view(c.app_stderr)
    &&& stored_text(c.app_stdin) == opt_view(c.app_stdin)
}

/// The two configurations agree on every persisted field.
pub open spec fn same_stored_fields(a: ServiceConfig, b: ServiceConfig) -> bool {
    &&& a.application@ == b.application@
    &&& opt_view(a.app_directory) == opt_view(b.app_directory)
    &&& opt_view(a.app_parameters) == opt_view(b.app_parameters)
    &&& a.app_priority == b.app_priority
    &&& a.app_no_console == b.app_no_console
    &&& a.app_throttle == b.app_throttle
    &&& a.app_restart_delay == b.app_restart_delay
    &&& a.app_stop_method_skip == b.app_stop_method_skip
    &&& a.app_stop_method_console == b.app_stop_method_console
    &&& a.app_stop_method_window == b.app_stop_method_window
    &&& a.app_stop_method_threads == b.app_stop_method_threads
    &&& a.app_exit_default == b.app_exit_default
    &&& opt_view(a.app_stdout) == opt_view(b.app_stdout)
    &&& opt_view(a.app_stderr) == opt_view(b.app_stderr)
    &&& opt_view(a.app_stdin) == opt_view(b.app_stdin)
}

/// Each exit action's stored name reads back as that action.
proof fn lemma_exit_action_name_reads_back(a: ExitAction)
    ensures
        ExitAction::named(folded(a.spec_name())) == Some(a),
{
    reveal_strlit("Restart");
    reveal_strlit("Ignore");
    reveal_strlit("Exit");
    reveal_strlit("RESTART");
    reveal_strlit("IGNORE");
    reveal_strlit("EXIT");
    let n = a.spec_name();
    assert(crate::text::is_ascii_text(n));
    match a {
        ExitAction::Restart => {
            assert(crate::text::ascii_upper(n) =~= "RESTART"@);
        },
        ExitAction::Ignore => {
            assert(crate::text::ascii_upper(n) =~= "IGNORE"@);
            assert("IGNORE"@ != "RESTART"@);
        },
        ExitAction::Exit => {
            assert(crate::text::ascii_upper(n) =~= "EXIT"@);
            assert("EXIT"@ != "RESTART"@);
            assert("EXIT"@ != "IGNORE"@);
        },
    }
}

/// Saving a configuration and loading it back succeeds and gives the same
/// value in every persisted field.
pub proof fn lemma_store_round_trip(c: ServiceConfig, p: StoredParameters, d: ServiceConfig)
    requires
        persistable(c),
        stored_from(p, c),
        loaded_from(d, p),
    ensures
        p.application is Some && p.application->Some_0@.len() > 0,
        same_stored_fields(d, c),
{
    lemma_exit_action_name_reads_back(c.app_exit_default);
}

fn copy_text(o: &Option<String>) -> (r: Option<String>)
    ensures
        opt_view(r) == opt_view(*o),
{
    match o {
        Some(s) => Some(s.clone()),
        None => None,
    }
}

fn nonempty_text(o: &Option<String>) -> (r: Option<String>)
    ensures
        opt_view(r) == stored_text(*o),
{
    match o {
        Some(s) => {
            if s.as_str().unicode_len() == 0 {
                None
            } else {
                Some(s.clone())
            }
        },
        None => None,
    }
}

fn stored_word(o: Option<u32>, d: u32) -> (r: u32)
    ensures
        r == word_or(o, d),
{
    match o {
        Some(v) => v,
        None => d,
    }
}

impl StoredParameters {
    /// The values that saving `config` writes to the store.
    pub fn from_config(config: &ServiceConfig) -> (r: StoredParameters)
        ensures
            stored_from(r, *config),
    {
        StoredParameters {
            application: Some(config.application.clone()),
            app_directory: copy_text(&config.app_directory),
            app_parameters: copy_text(&config.app_parameters),
            app_priority: Some(config.app_priority.to_windows_value()),
            app_no_console: Some(
                if config.app_no_console {
                    1
                } else {
                    0
                },
            ),
            app_throttle: Some(config.app_throttle),
            app_restart_delay: Some(config.app_restart_delay),
            app_stop_method_skip: Some(config.app_stop_method_skip),
            app_stop_method_console: Some(config.app_stop_method_console),
            app_stop_method_window: Some(config.app_stop_method_window),
            app_stop_method_threads: Some(config.app_stop_method_threads),
            app_exit_default: Some(config.app_exit_default.to_str().to_owned()),
            app_stdout: copy_text(&config.app_stdout),
            app_stderr: copy_text(&config.app_stderr),
            app_stdin: copy_text(&config.app_stdin),
        }
    }

    /// The configuration that the stored values give. It fails only where
    /// the application path is absent or empty.
    pub fn load(&self) -> (r: Result<ServiceConfig, ConfigError>)
        ensures
            match r {
                Ok(c) => self.application is Some && self.application->Some_0@.len() > 0
                    && loaded_from(c, *self),
                Err(e) => e == ConfigError::MissingApplication && (self.application is None
                    || self.application->Some_0@.len() == 0),
            },
    {
        let application = match &self.application {
            Some(a) => {
                if a.as_str().unicode_len() == 0 {
                    return Err(ConfigError::MissingApplication);
                }
                a.clone()
            },
            None => {
                return Err(ConfigError::MissingApplication);
            },
        };
        let app_priority = match self.app_priority {
            Some(v) => ProcessPriority::from_windows_value(v),
            None => ProcessPriority::Normal,
        };
        let app_exit_default = match &self.app_exit_default {
            Some(s) => match ExitAction::from_str(s.as_str()) {
                Some(a) => a,
                None => ExitAction::Restart,
            },
            None => ExitAction::Restart,
        };
        let mut config = ServiceConfig::default();
        config.application = application;
        config.app_directory = nonempty_text(&self.app_directory);
        config.app_parameters = nonempty_text(&self.app_parameters);
        config.app_priority = app_priority;
        config.app_no_console = stored_word(self.app_no_console, 0) != 0;
        config.app_throttle = stored_word(self.app_throttle, 1500);
        config.app_restart_delay = stored_word(self.app_restart_delay, 0);
        config.app_stop_method_skip = stored_word(self.app_stop_method_skip, 0);
        config.app_stop_method_console = stored_word(self.app_stop_method_console, 1500);
        config.app_stop_method_window = stored_word(self.app_stop_method_window, 1500);
        config.app_stop_method_threads = stored_word(self.app_stop_method_threads, 1500);
        config.app_exit_default = app_exit_default;
        config.app_stdout = nonempty_text(&self.app_stdout);
        config.app_stderr = nonempty_text(&self.app_stderr);
        config.app_stdin = nonempty_text(&self.app_stdin);
        Ok(config)
    }
}

} // verus!

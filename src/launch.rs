use vstd::prelude::*;
use crate::cli::ServiceConfig;
use crate::command_line::{parse_command_line, split_args, views_of};
use crate::parameters::opt_view;

verus! {

/// Where the child's output goes.
#[derive(Clone, Copy, Debug, PartialEq, Eq, Structural)]
pub enum StdioMode {
    /// Both streams are piped to the supervisor, which copies them on.
    Piped,
    /// Both streams are discarded.
    Discard,
    /// The child shares the supervisor's streams.
    Inherit,
}

/// Everything needed to spawn the child.
#[derive(Clone, Debug)]
pub struct LaunchPlan {
    pub program: String,
    pub working_dir: String,
    pub args: Vec<String>,
    /// Variables set on top of the inherited environment, in order.
    pub env: Vec<(String, String)>,
    pub stdio: StdioMode,
    /// Priority class code to give the child once it runs.
    pub priority_class: u32,
}

/// An environment entry split at its first `=`; `None` without one.
pub open spec fn env_pair(s: Seq<char>) -> Option<(Seq<char>, Seq<char>)> {
    if exists|i: int| 0 <= i < s.len() && s[i] == '=' {
        let i = choose|i: int|
            0 <= i < s.len() && s[i] == '=' && forall|j: int| 0 <= j < i ==> s[j] != '=';
        Some((s.subrange(0, i), s.subrange(i + 1, s.len() as int)))
    } else {
        None
    }
}

/// Splits `KEY=VALUE` at the first `=`.
pub fn split_env_entry(entry: &str) -> (r: Option<(String, String)>)
    ensures
        match r {
            Some((k, v)) => env_pair(entry@) == Some((k@, v@)),
            None => env_pair(entry@) is None,
        },
{
    let n = entry.unicode_len();
    let mut i: usize = 0;
    while i < n
        invariant
            n == entry@.len(),
            i <= n,
            forall|j: int| 0 <= j < i ==> entry@[j] != '=',
        decreases n - i,
    {
        if entry.get_char(i) == '=' {
            let key = entry.substring_char(0, i).to_owned();
            let value = entry.substring_char(i + 1, n).to_owned();
            proof {
                let s = entry@;
                assert(0 <= i < s.len() && s[i as int] == '=');
                let c = choose|c: int|
                    0 <= c < s.len() && s[c] == '=' && forall|j: int| 0 <= j < c ==> s[j] != '=';
                assert(c == i) by {
                    if c < i {
                        assert(s[c] != '=');
                    }
                    if c > i {
                        assert(s[i as int] != '=');
                    }
                }
            }
            return Some((key, value));
        }
        i += 1;
    }
    None
}

pub open spec fn env_views(v: Seq<(String, String)>) -> Seq<(Seq<char>, Seq<char>)> {
    v.map_values(|p: (String, String)| (p.0@, p.1@))
}

/// The `(key, value)` pairs of the entries that hold an `=`, in order.
pub open spec fn env_pairs(entries: Seq<Seq<char>>) -> Seq<(Seq<char>, Seq<char>)>
    decreases entries.len(),
{
    if entries.len() == 0 {
        Seq::empty()
    } else {
        let rest = env_pairs(entries.drop_last());
        match env_pair(entries.last()) {
            Some(p) => rest.push(p),
            None => rest,
        }
    }
}

/// Working directory of the child: the configured one, else the folder of
/// the application (`application_parent`, as the caller's path library
/// gives it), else the current directory.
pub open spec fn working_dir_of(c: ServiceConfig, application_parent: Option<Seq<char>>) -> Seq<
    char,
> {
    match c.app_directory {
        Some(d) => d@,
        None => match application_parent {
            Some(p) => p,
            None => "."@,
        },
    }
}

pub open spec fn stdio_of(c: ServiceConfig) -> StdioMode {
    if c.app_stdout is Some || c.app_stderr is Some {
        StdioMode::Piped
    } else if c.app_no_console {
        StdioMode::Discard
    } else {
        StdioMode::Inherit
    }
}

pub open spec fn args_of(c: ServiceConfig) -> Seq<Seq<char>> {
    match c.app_parameters {
        Some(p) => split_args(p@),
        None => Seq::empty(),
    }
}

/// How to spawn the child of a configuration.
pub fn launch_plan(config: &ServiceConfig, application_parent: Option<String>) -> (r: LaunchPlan)
    ensures
        r.program@ == config.application@,
        r.working_dir@ == working_dir_of(*config, opt_view(application_parent)),
        views_of(r.args@) == args_of(*config),
        env_views(r.env@) == env_pairs(views_of(config.app_environment_extra@)),
        r.stdio == stdio_of(*config),
        r.priority_class == config.app_priority.spec_windows_value(),
{
    let working_dir = match &config.app_directory {
        Some(d) => d.clone(),
        None => match application_parent {
            Some(p) => p,
            None => ".".to_owned(),
        },
    };
    let args = match &config.app_parameters {
        Some(p) => parse_command_line(p.as_str()),
        None => Vec::new(),
    };
    proof {
        if config.app_parameters is None {
            assert(views_of(args@) =~= Seq::<Seq<char>>::empty());
        }
    }
    let mut env: Vec<(String, String)> = Vec::new();
    let extra = &config.app_environment_extra;
    let mut i: usize = 0;
    while i < extra.len()
        invariant
            i <= extra@.len(),
            env_views(env@) == env_pairs(views_of(extra@.subrange(0, i as int))),
        decreases extra@.len() - i,
    {
        let ghost before = env@;
        let ghost entries = views_of(extra@.subrange(0, i + 1));
        proof {
            assert(entries.drop_last() =~= views_of(extra@.subrange(0, i as int)));
            assert(entries.last() == extra@[i as int]@);
        }
        match split_env_entry(extra[i].as_str()) {
            Some(p) => {
                env.push(p);
                proof {
                    assert(env_views(env@) =~= env_views(before).push((p.0@, p.1@)));
                }
            },
            None => {},
        }
        i += 1;
    }
    proof {
        assert(extra@.subrange(0, extra@.len() as int) =~= extra@);
    }
    let stdio = if config.app_stdout.is_some() || config.app_stderr.is_some() {
        StdioMode::Piped
    } else if config.app_no_console {
        StdioMode::Discard
    } else {
        StdioMode::Inherit
    };
    LaunchPlan {
        program: config.application.clone(),
        working_dir,
        args,
        env,
        stdio,
        priority_class: config.app_priority.to_windows_value(),
    }
}

} // verus!

use vstd::prelude::*;
use crate::cli::ServiceConfig;
use crate::command_line::{join_words, views_of};
use crate::parameters::opt_view;
use crate::text::push_char;

verus! {

/// Joins words with single spaces.
pub fn join_arguments(args: &Vec<String>) -> (r: String)
    ensures
        r@ == join_words(views_of(args@)),
{
    let mut out = String::new();
    let mut i: usize = 0;
    while i < args.len()
        invariant
            i <= args@.len(),
            out@ == join_words(views_of(args@.subrange(0, i as int))),
        decreases args@.len() - i,
    {
        let ghost before = out@;
        let ghost ws = views_of(args@.subrange(0, i + 1));
        proof {
            assert(ws.drop_last() =~= views_of(args@.subrange(0, i as int)));
            assert(ws.last() == args@[i as int]@);
        }
        if i > 0 {
            push_char(&mut out, ' ');
        }
        out.append(args[i].as_str());
        proof {
            if i > 0 {
                assert(out@ =~= before + seq![' '] + args@[i as int]@);
            } else {
                assert(ws =~= seq![args@[0]@]);
                assert(out@ =~= args@[0]@);
            }
        }
        i += 1;
    }
    proof {
        assert(args@.subrange(0, args@.len() as int) =~= args@);
    }
    out
}

/// The configuration that installing `application` with `arguments` records:
/// the defaults, the application, its folder `application_dir` as working
/// directory, and the arguments joined by spaces, if there are any.
pub fn install_config(application: &str, application_dir: String, arguments: &Vec<String>) -> (r:
    ServiceConfig)
    ensures
        r.application@ == application@,
        opt_view(r.app_directory) == Some(application_dir@),
        opt_view(r.app_parameters) == (if arguments@.len() == 0 {
            None
        } else {
            Some(join_words(views_of(arguments@)))
        }),
        (ServiceConfig { app_directory: None, app_parameters: None, ..r }).has_default_settings(),
{
    let mut config = ServiceConfig::default();
    config.application = application.to_owned();
    config.app_directory = Some(application_dir);
    config.app_parameters = if arguments.len() == 0 {
        None
    } else {
        Some(join_arguments(arguments))
    };
    config
}

/// The command line that the service control manager runs for a service:
/// the quoted path of this tool, `run`, and the service's name.
pub fn service_command_line(exe_path: &str, service_name: &str) -> (r: String)
    ensures
        r@ == seq!['"'] + exe_path@ + "\" run "@ + service_name@,
{
    let mut out = String::new();
    push_char(&mut out, '"');
    out.append(exe_path);
    out.append("\" run ");
    out.append(service_name);
    out
}

/// The name shown for a service: its display name, else its service name.
pub fn display_name_or(config: &ServiceConfig, service_name: &str) -> (r: String)
    ensures
        r@ == match config.display_name {
            Some(d) => d@,
            None => service_name@,
        },
{
    match &config.display_name {
        Some(d) => d.clone(),
        None => service_name.to_owned(),
    }
}

} // verus!

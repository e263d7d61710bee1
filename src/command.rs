//! Assembly of the linker invocation: program, rewritten arguments and the curated
//! environment.
use vstd::prelude::*;

use crate::classify::{last_output, option_view, rewrite_arguments, rewritten};
use crate::config::{config_error, resolve_config, LinkerInvocationConfig, Setting};
use crate::error::ShimError;

verus! {

/// The variable that tells WSL which variables to carry over to Windows: `WSLENV`.
pub open spec fn wslenv_name() -> Seq<char> {
    seq!['W', 'S', 'L', 'E', 'N', 'V']
}

/// Its value: keep `LIB` as it is (`LIB/w`).
pub open spec fn wslenv_value() -> Seq<char> {
    seq!['L', 'I', 'B', '/', 'w']
}

/// The linker's library search path variable: `LIB`.
pub open spec fn lib_name() -> Seq<char> {
    seq!['L', 'I', 'B']
}

/// The whole environment of the linker process, which inherits nothing: the library
/// path and its marker where one is configured, else nothing.
pub open spec fn forwarded_environment(lib_dirs: Option<Seq<char>>) -> Seq<(Seq<char>, Seq<char>)> {
    match lib_dirs {
        Some(d) => seq![(wslenv_name(), wslenv_value()), (lib_name(), d)],
        None => Seq::empty(),
    }
}

/// The environment as name and value texts.
pub open spec fn environment_view(env: Vec<(String, String)>) -> Seq<(Seq<char>, Seq<char>)> {
    env@.map_values(|p: (String, String)| (p.0@, p.1@))
}

/// A linker invocation, ready to be run.
#[derive(Debug, PartialEq, Eq)]
pub struct LinkCommand {
    pub program: String,
    pub arguments: Vec<String>,
    /// The complete environment; nothing else is inherited.
    pub environment: Vec<(String, String)>,
    /// The output path named by the arguments, before translation.
    pub output_path: Option<String>,
}

impl LinkCommand {
    /// The command runs `linker` on the rewritten `args`, in the environment that
    /// `lib_dirs` calls for.
    pub open spec fn describes(
        &self,
        linker: Seq<char>,
        distro: Seq<char>,
        lib_dirs: Option<Seq<char>>,
        args: Seq<Seq<char>>,
    ) -> bool {
        &&& self.program@ == linker
        &&& self.arguments.len() == args.len()
        &&& forall|i: int|
            0 <= i < args.len() ==> #[trigger] self.arguments[i]@ == rewritten(distro, args[i])
        &&& environment_view(self.environment) == forwarded_environment(lib_dirs)
        &&& option_view(self.output_path) == last_output(args)
    }
}

/// Builds the linker invocation for `args` under `config`.
pub fn build_command(config: &LinkerInvocationConfig, args: &Vec<String>) -> (r: LinkCommand)
    ensures
        r.describes(
            config.linker_path@,
            config.distro@,
            option_view(config.lib_dirs),
            args.deep_view(),
        ),
{
    let rewritten_args = rewrite_arguments(config.distro.as_str(), args);
    let mut environment: Vec<(String, String)> = Vec::new();
    match &config.lib_dirs {
        Some(d) => {
            proof {
                reveal_strlit("WSLENV");
                reveal_strlit("LIB/w");
                reveal_strlit("LIB");
            }
            let wslenv = "WSLENV";
            let keep_lib = "LIB/w";
            let lib = "LIB";
            assert(wslenv@ =~= wslenv_name());
            assert(keep_lib@ =~= wslenv_value());
            assert(lib@ =~= lib_name());
            environment.push((wslenv.to_owned(), keep_lib.to_owned()));
            environment.push((lib.to_owned(), d.clone()));
        },
        None => {},
    }
    assert(environment_view(environment) =~= forwarded_environment(option_view(config.lib_dirs)));
    let r = LinkCommand {
        program: config.linker_path.clone(),
        arguments: rewritten_args.arguments,
        environment,
        output_path: rewritten_args.output_path,
    };
    assert(args.deep_view().len() == args.len());
    r
}

/// What an invocation of the shim starts with.
#[derive(Debug, PartialEq, Eq)]
pub enum Launch {
    /// No arguments were given: the linker is not run, and the shim succeeds.
    NoArguments,
    /// Run this command.
    Run(LinkCommand),
}

/// Decides how an invocation starts, from its arguments (without the program name)
/// and the three settings as read.
pub fn plan_launch(args: &Vec<String>, linker_path: Setting, distro: Setting, lib_dirs: Setting) -> (r:
    Result<Launch, ShimError>)
    ensures
        args.len() == 0 ==> r == Ok::<Launch, ShimError>(Launch::NoArguments),
        args.len() > 0 ==> match r {
            Ok(Launch::Run(cmd)) => exists|c: LinkerInvocationConfig|
                {
                    &&& c.holds_settings(linker_path, distro, lib_dirs)
                    &&& #[trigger] cmd.describes(
                        c.linker_path@,
                        c.distro@,
                        option_view(c.lib_dirs),
                        args.deep_view(),
                    )
                },
            Ok(Launch::NoArguments) => false,
            Err(e) => config_error(linker_path, distro, lib_dirs) == Some(e),
        },
        r is Err <==> (args.len() > 0 && config_error(linker_path, distro, lib_dirs) is Some),
{
    if args.len() == 0 {
        return Ok(Launch::NoArguments);
    }
    match resolve_config(linker_path, distro, lib_dirs) {
        Ok(config) => {
            let cmd = build_command(&config, args);
            Ok(Launch::Run(cmd))
        },
        Err(e) => Err(e),
    }
}

} // verus!

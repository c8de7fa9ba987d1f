use vstd::prelude::*;
use vstd::string::StringExecFns;
use crate::commands::{bootstrap_required, YBaseCommand, YCommand};
use crate::context::expand_from;
use crate::envmap::{kv_map_of, env_from_args, EnvMap};
use crate::error::BError;
use crate::executers::ExecPlan;
use crate::strutil::{clone_strings, has_kv_sep, quoted, str_eq};
use crate::variant::{variant_chars, Variant};
use crate::workspace::Workspace;

verus! {

/// The arguments of one `shell` invocation, already extracted from the
/// CLI: the selected build configuration, a container image override, the
/// volumes to bind, extra `KEY=VALUE` environment entries, an optional
/// command to run instead of an interactive session, whether to refresh
/// the image before bootstrapping, and the build variant.
pub struct ShellArgs {
    pub config: String,
    pub docker: String,
    pub volumes: Vec<String>,
    pub env: Vec<String>,
    pub cmd: String,
    pub docker_pull: bool,
    pub variant: Variant,
}

/// What a shell invocation decides to do; the plumbing around the library
/// performs it.
#[derive(Debug)]
pub enum ShellAction {
    /// Re-run the whole tool inside the workspace container with this
    /// command line, optionally refreshing the image first.
    Bootstrap { cmd_line: Vec<String>, volumes: Vec<String>, interactive: bool, pull_first: bool },
    /// Execute the plan in place.
    Run(ExecPlan),
}

/// `flag` and `value` when the value is set, nothing otherwise.
pub open spec fn opt_flag(flag: Seq<char>, value: Seq<char>) -> Seq<Seq<char>> {
    if value.len() > 0 {
        seq![flag, value]
    } else {
        Seq::empty()
    }
}

/// Each item preceded by its flag, in order.
pub open spec fn flag_pairs(flag: Seq<char>, items: Seq<Seq<char>>) -> Seq<Seq<char>>
    decreases items.len(),
{
    if items.len() == 0 {
        Seq::empty()
    } else {
        flag_pairs(flag, items.drop_last()) + seq![flag, items.last()]
    }
}

/// The command line a shell bootstrap re-runs inside the container: every
/// flag the user supplied is forwarded, and the free-form run command is
/// re-quoted so it is not word-split.
pub open spec fn shell_bootstrap_line(args: &ShellArgs) -> Seq<Seq<char>> {
    seq!["yaab"@, "shell"@] + opt_flag("-c"@, args.config@) + opt_flag("-d"@, args.docker@)
        + seq!["-a"@, variant_chars(args.variant)] + flag_pairs("-v"@, args.volumes.deep_view())
        + flag_pairs("-e"@, args.env.deep_view()) + seq![
        "-r"@,
        seq!['"'] + args.cmd@ + seq!['"'],
    ]
}

/// An interactive shell session.
pub open spec fn bash_interactive_line() -> Seq<Seq<char>> {
    seq!["/bin/bash"@, "-i"@]
}

/// A single quoted command run through an interactive shell.
pub open spec fn bash_cmd_line(cmd: Seq<char>) -> Seq<Seq<char>> {
    seq!["/bin/bash"@, "-i"@, "-c"@, seq!['"'] + cmd + seq!['"']]
}

/// The fixed derived variables a shell session exports: the workspace
/// directory, the selected build configuration, the build variant, and the
/// product name.
pub open spec fn derived_env(ws: &Workspace, variant: Variant) -> Map<Seq<char>, Seq<char>> {
    Map::empty().insert("YAAB_WORKSPACE_DIR"@, ws.spec_settings().spec_work_dir()).insert(
        "YAAB_BUILD_CONFIG"@,
        ws.spec_config().spec_name(),
    ).insert("YAAB_BUILD_VARIANT"@, variant_chars(variant)).insert(
        "YAAB_PRODUCT_NAME"@,
        ws.spec_product_name(),
    )
}

/// The environment of a shell session, merged in increasing priority: the
/// inherited process environment, then the CLI-supplied entries, then the
/// derived variables.
pub open spec fn shell_env(
    ws: &Workspace,
    args_env: Map<Seq<char>, Seq<char>>,
    variant: Variant,
    inherited: Map<Seq<char>, Seq<char>>,
) -> Map<Seq<char>, Seq<char>> {
    inherited.union_prefer_right(args_env).union_prefer_right(derived_env(ws, variant))
}

/// A session plan: the command line runs in the named container image when
/// one is given, with the workspace work directory as the mount root, else
/// natively; either way with exactly the given environment.
pub open spec fn session_plan_matches(
    work_dir: Seq<char>,
    docker: Seq<char>,
    line: Seq<Seq<char>>,
    env: Map<Seq<char>, Seq<char>>,
    p: ExecPlan,
) -> bool {
    if docker.len() > 0 {
        &&& p matches ExecPlan::Container { image, cmd_line, env: penv, work_dir: pwd, interactive }
        &&& image@ == docker
        &&& cmd_line.deep_view() == line
        &&& penv@ == env
        &&& pwd@ == work_dir
        &&& interactive
    } else {
        &&& p matches ExecPlan::Native { cmd_line, env: penv }
        &&& cmd_line.deep_view() == line
        &&& penv@ == env
    }
}

/// Initiates a shell within the build environment, or runs one command in
/// it.
pub struct ShellCommand {
    pub cmd: YBaseCommand,
}

impl YCommand for ShellCommand {
    open spec fn spec_cmd_str(&self) -> Seq<char> {
        self.cmd.cmd_str@
    }

    open spec fn spec_docker_required(&self) -> bool {
        self.cmd.require_docker
    }

    fn cmd_str(&self) -> (r: &str) {
        self.cmd.cmd_str.as_str()
    }

    fn is_docker_required(&self) -> (r: bool) {
        self.cmd.require_docker
    }
}

/// Appends each item preceded by its flag.
fn push_flag_pairs(out: &mut Vec<String>, flag: &str, items: &Vec<String>)
    ensures
        final(out).deep_view() == old(out).deep_view() + flag_pairs(flag@, items.deep_view()),
{
    let mut i: usize = 0;
    while i < items.len()
        invariant
            i <= items@.len(),
            out.deep_view() =~= old(out).deep_view() + flag_pairs(
                flag@,
                items.deep_view().subrange(0, i as int),
            ),
        decreases items@.len() - i,
    {
        let ghost pre = out.deep_view();
        out.push(flag.to_owned());
        out.push(items[i].clone());
        i += 1;
        proof {
            let dv = items.deep_view();
            assert(dv.subrange(0, i as int).drop_last() =~= dv.subrange(0, i - 1));
            assert(dv.subrange(0, i as int).last() == dv[i - 1]);
            assert(out.deep_view() =~= pre + seq![flag@, dv[i - 1]]);
        }
    }
    proof {
        assert(items.deep_view().subrange(0, items.deep_view().len() as int)
            =~= items.deep_view());
    }
}

impl ShellCommand {
    pub fn new() -> (r: ShellCommand)
        ensures
            r.spec_cmd_str() == "shell"@,
            r.spec_docker_required(),
            r.cmd.interactive,
    {
        ShellCommand {
            cmd: YBaseCommand {
                cmd_str: String::from_str("shell"),
                interactive: true,
                require_docker: true,
            },
        }
    }

    /// Rebuilds a command line equivalent to the original invocation, for
    /// re-execution inside the container.
    fn bootstrap_cmd_line(&self, args: &ShellArgs) -> (r: Vec<String>)
        ensures
            r.deep_view() == shell_bootstrap_line(args),
    {
        let mut out: Vec<String> = Vec::new();
        out.push(String::from_str("yaab"));
        out.push(String::from_str("shell"));
        let ghost mut pfx: Seq<Seq<char>> = seq!["yaab"@, "shell"@];
        proof {
            assert(out.deep_view() =~= pfx);
        }
        if !args.config.as_str().is_empty() {
            out.push(String::from_str("-c"));
            out.push(args.config.clone());
        }
        proof {
            pfx = pfx + opt_flag("-c"@, args.config@);
            assert(out.deep_view() =~= pfx);
        }
        if !args.docker.as_str().is_empty() {
            out.push(String::from_str("-d"));
            out.push(args.docker.clone());
        }
        proof {
            pfx = pfx + opt_flag("-d"@, args.docker@);
            assert(out.deep_view() =~= pfx);
        }
        out.push(String::from_str("-a"));
        out.push(args.variant.to_str());
        proof {
            pfx = pfx + seq!["-a"@, variant_chars(args.variant)];
            assert(out.deep_view() =~= pfx);
        }
        push_flag_pairs(&mut out, "-v", &args.volumes);
        proof {
            pfx = pfx + flag_pairs("-v"@, args.volumes.deep_view());
        }
        push_flag_pairs(&mut out, "-e", &args.env);
        proof {
            pfx = pfx + flag_pairs("-e"@, args.env.deep_view());
        }
        out.push(String::from_str("-r"));
        out.push(quoted(args.cmd.as_str()));
        proof {
            pfx = pfx + seq!["-r"@, seq!['"'] + args.cmd@ + seq!['"']];
            assert(out.deep_view() =~= pfx);
            assert(pfx =~= shell_bootstrap_line(args));
        }
        out
    }

    /// The merged environment a shell session exports.
    fn yaab_build_env(
        &self,
        workspace: &Workspace,
        args_env: &EnvMap,
        variant: &Variant,
        inherited: &EnvMap,
    ) -> (r: EnvMap)
        ensures
            r@ == shell_env(workspace, args_env@, *variant, inherited@),
    {
        let mut derived = EnvMap::new();
        derived.insert(
            String::from_str("YAAB_WORKSPACE_DIR"),
            workspace.settings().work_dir().to_owned(),
        );
        derived.insert(String::from_str("YAAB_BUILD_CONFIG"), workspace.config().name().to_owned());
        derived.insert(String::from_str("YAAB_BUILD_VARIANT"), variant.to_str());
        derived.insert(String::from_str("YAAB_PRODUCT_NAME"), workspace.product_name().to_owned());
        let mid = args_env.merged_over(inherited);
        derived.merged_over(&mid)
    }

    /// Plans an interactive session that sets up the build environment.
    pub fn run_yaab_shell(
        &self,
        workspace: &Workspace,
        args_env: &EnvMap,
        docker: &String,
        variant: &Variant,
        inherited: &EnvMap,
    ) -> (r: Result<ExecPlan, BError>)
        ensures
            r is Ok,
            session_plan_matches(
                workspace.spec_settings().spec_work_dir(),
                docker@,
                bash_interactive_line(),
                shell_env(workspace, args_env@, *variant, inherited@),
                r->Ok_0,
            ),
    {
        let mut cmd_line: Vec<String> = Vec::new();
        cmd_line.push(String::from_str("/bin/bash"));
        cmd_line.push(String::from_str("-i"));
        proof {
            assert(cmd_line.deep_view() =~= bash_interactive_line());
        }
        let env = self.yaab_build_env(workspace, args_env, variant, inherited);
        if !docker.as_str().is_empty() {
            Ok(ExecPlan::Container {
                image: docker.clone(),
                cmd_line,
                env,
                work_dir: workspace.settings().work_dir().to_owned(),
                interactive: true,
            })
        } else {
            Ok(ExecPlan::Native { cmd_line, env })
        }
    }

    /// Plans one quoted command run inside the build environment.
    pub fn run_cmd(
        &self,
        cmd: &String,
        workspace: &Workspace,
        args_env: &EnvMap,
        docker: &String,
        variant: &Variant,
        inherited: &EnvMap,
    ) -> (r: Result<ExecPlan, BError>)
        ensures
            r is Ok,
            session_plan_matches(
                workspace.spec_settings().spec_work_dir(),
                docker@,
                bash_cmd_line(cmd@),
                shell_env(workspace, args_env@, *variant, inherited@),
                r->Ok_0,
            ),
    {
        let mut cmd_line: Vec<String> = Vec::new();
        cmd_line.push(String::from_str("/bin/bash"));
        cmd_line.push(String::from_str("-i"));
        cmd_line.push(String::from_str("-c"));
        cmd_line.push(quoted(cmd.as_str()));
        proof {
            assert(cmd_line.deep_view() =~= bash_cmd_line(cmd@));
        }
        let env = self.yaab_build_env(workspace, args_env, variant, inherited);
        if !docker.as_str().is_empty() {
            Ok(ExecPlan::Container {
                image: docker.clone(),
                cmd_line,
                env,
                work_dir: workspace.settings().work_dir().to_owned(),
                interactive: true,
            })
        } else {
            Ok(ExecPlan::Native { cmd_line, env })
        }
    }

    /// Plans a bare interactive shell, with no build environment set up.
    pub fn run_shell(&self, workspace: &Workspace, docker: &String) -> (r: Result<
        ExecPlan,
        BError,
    >)
        ensures
            r is Ok,
            session_plan_matches(
                workspace.spec_settings().spec_work_dir(),
                docker@,
                bash_interactive_line(),
                Map::empty(),
                r->Ok_0,
            ),
    {
        let mut cmd_line: Vec<String> = Vec::new();
        cmd_line.push(String::from_str("/bin/bash"));
        cmd_line.push(String::from_str("-i"));
        proof {
            assert(cmd_line.deep_view() =~= bash_interactive_line());
        }
        let env = EnvMap::new();
        if !docker.as_str().is_empty() {
            Ok(ExecPlan::Container {
                image: docker.clone(),
                cmd_line,
                env,
                work_dir: workspace.settings().work_dir().to_owned(),
                interactive: true,
            })
        } else {
            Ok(ExecPlan::Native { cmd_line, env })
        }
    }

    /// Decides what one `shell` invocation does. With containerization
    /// enabled, required and not already active, the tool bootstraps
    /// itself into the container, forwarding an equivalent command line;
    /// the sentinel configuration `NA` opens a bare shell; an unknown
    /// configuration is rejected; otherwise the configuration's templates
    /// are expanded and a session (or the one requested command) is
    /// planned with the composed environment.
    pub fn execute(
        &self,
        args: &ShellArgs,
        orig_cmd_line: &Vec<String>,
        inherited_env: &EnvMap,
        inside_docker: bool,
        workspace: &mut Workspace,
    ) -> (r: Result<ShellAction, BError>)
        requires
            forall|k: int| 0 <= k < args.env@.len() ==> has_kv_sep(#[trigger] args.env@[k]@),
        ensures
            ({
                let ws = *old(workspace);
                let gate = !ws.spec_settings().spec_docker_disabled()
                    && self.spec_docker_required() && !inside_docker;
                if gate {
                    &&& *final(workspace) == ws
                    &&& match r {
                        Ok(a) => {
                            &&& a matches ShellAction::Bootstrap {
                                cmd_line,
                                volumes,
                                interactive,
                                pull_first,
                            }
                            &&& cmd_line.deep_view() == (if args.cmd@.len() > 0 {
                                shell_bootstrap_line(args)
                            } else {
                                orig_cmd_line.deep_view()
                            })
                            &&& volumes@ == args.volumes@
                            &&& interactive
                            &&& pull_first == args.docker_pull
                        },
                        Err(_) => false,
                    }
                } else if args.config@ == "NA"@ {
                    &&& *final(workspace) == ws
                    &&& match r {
                        Ok(a) => {
                            &&& a matches ShellAction::Run(p)
                            &&& session_plan_matches(
                                ws.spec_settings().spec_work_dir(),
                                args.docker@,
                                bash_interactive_line(),
                                Map::empty(),
                                p,
                            )
                        },
                        Err(_) => false,
                    }
                } else if !ws.spec_supported_configs().contains(args.config@) {
                    &&& *final(workspace) == ws
                    &&& match r {
                        Ok(_) => false,
                        Err(e) => e is UnsupportedConfig,
                    }
                } else if expand_from(
                    ws.spec_config().spec_init_env(),
                    ws.spec_expansion_context(),
                    0,
                ) is None {
                    &&& match r {
                        Ok(_) => false,
                        Err(e) => e is ContextExpansionError,
                    }
                } else {
                    &&& expand_from(
                        ws.spec_config().spec_init_env(),
                        ws.spec_expansion_context(),
                        0,
                    ) == Some(final(workspace).spec_config().spec_init_env())
                    &&& final(workspace).spec_config().spec_name() == ws.spec_config().spec_name()
                    &&& final(workspace).spec_settings() == ws.spec_settings()
                    &&& final(workspace).spec_product_name() == ws.spec_product_name()
                    &&& match r {
                        Ok(a) => {
                            &&& a matches ShellAction::Run(p)
                            &&& session_plan_matches(
                                ws.spec_settings().spec_work_dir(),
                                args.docker@,
                                if args.cmd@.len() == 0 {
                                    bash_interactive_line()
                                } else {
                                    bash_cmd_line(args.cmd@)
                                },
                                shell_env(
                                    final(workspace),
                                    kv_map_of(args.env.deep_view()),
                                    args.variant,
                                    inherited_env@,
                                ),
                                p,
                            )
                        },
                        Err(_) => false,
                    }
                }
            }),
    {
        let gate = bootstrap_required(
            workspace.settings().docker_disabled(),
            self.is_docker_required(),
            inside_docker,
        );
        if gate {
            let cmd_line = if !args.cmd.as_str().is_empty() {
                self.bootstrap_cmd_line(args)
            } else {
                clone_strings(orig_cmd_line)
            };
            return Ok(ShellAction::Bootstrap {
                cmd_line,
                volumes: clone_strings(&args.volumes),
                interactive: true,
                pull_first: args.docker_pull,
            });
        }
        if str_eq(args.config.as_str(), "NA") {
            let plan = self.run_shell(workspace, &args.docker)?;
            return Ok(ShellAction::Run(plan));
        }
        if !workspace.valid_config(args.config.as_str()) {
            return Err(BError::UnsupportedConfig(args.config.clone()));
        }
        match workspace.expand_ctx() {
            Ok(()) => {},
            Err(e) => {
                return Err(e);
            },
        }
        let args_env = env_from_args(&args.env);
        if args.cmd.as_str().is_empty() {
            let plan = self.run_yaab_shell(
                workspace,
                &args_env,
                &args.docker,
                &args.variant,
                inherited_env,
            )?;
            Ok(ShellAction::Run(plan))
        } else {
            let plan = self.run_cmd(
                &args.cmd,
                workspace,
                &args_env,
                &args.docker,
                &args.variant,
                inherited_env,
            )?;
            Ok(ShellAction::Run(plan))
        }
    }
}

} // verus!

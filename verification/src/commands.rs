use vstd::prelude::*;
use crate::context::{context_from_args, context_of};
use crate::ctxmap::{ctx_entries, Context};
use crate::envmap::EnvMap;
use crate::error::BError;
use crate::strutil::{clone_strings, has_kv_sep};
use crate::workspace::Workspace;

verus! {

/// The contract every subcommand implements: a name, a containerization
/// requirement, and the shared helper that turns CLI `KEY=VALUE` arguments
/// into a substitution context.
pub trait YCommand {
    /// The subcommand's name.
    spec fn spec_cmd_str(&self) -> Seq<char>;

    /// Whether this command must run inside a container when the workspace
    /// enables containerization.
    spec fn spec_docker_required(&self) -> bool;

    fn cmd_str(&self) -> (r: &str)
        ensures
            r@ == self.spec_cmd_str(),
    ;

    fn is_docker_required(&self) -> (r: bool)
        ensures
            r == self.spec_docker_required(),
    ;

    /// The build configuration a command selects when the CLI names none.
    fn get_config_name(&self) -> (r: String)
        default_ensures
            r@ == "default"@,
    {
        String::from_str("default")
    }

    /// Builds the substitution context from CLI `KEY=VALUE` arguments;
    /// each argument must hold a separator.
    fn setup_context(&self, ctx: Vec<String>) -> (r: Context)
        requires
            forall|k: int| 0 <= k < ctx@.len() ==> has_kv_sep(#[trigger] ctx@[k]@),
        ensures
            ctx_entries(r) == context_of(ctx.deep_view()),
    {
        context_from_args(&ctx)
    }
}

/// The state every subcommand starts from: its name, whether its sessions
/// are interactive, and whether it must run inside a container.
pub struct YBaseCommand {
    pub cmd_str: String,
    pub interactive: bool,
    pub require_docker: bool,
}

/// The container-bootstrap gate: the tool re-executes itself inside a
/// container exactly when containerization is enabled in the settings, the
/// command requires it, and the process is not already inside a container
/// (which would nest containers without end).
pub fn bootstrap_required(docker_disabled: bool, docker_required: bool, inside_container: bool) -> (
    r: bool)
    ensures
        r == (!docker_disabled && docker_required && !inside_container),
{
    !docker_disabled && docker_required && !inside_container
}

/// Everything a container launch needs: the image, the command line to run
/// inside it, the caller's whole environment, the mount roots, the extra
/// launch arguments, the volumes to bind, and the interactivity flag.
#[derive(Debug)]
pub struct BootstrapPlan {
    pub image: String,
    pub cmd_line: Vec<String>,
    pub env: EnvMap,
    pub top_dir: String,
    pub work_dir: String,
    pub docker_args: Vec<String>,
    pub volumes: Vec<String>,
    pub interactive: bool,
}

/// Decides the container bootstrap. With the engine binary present on the
/// host, the given command line is re-run inside the workspace image with
/// the caller's entire environment; an absent engine is fatal.
pub fn plan_bootstrap(
    engine_present: bool,
    cmd_line: &Vec<String>,
    env: &EnvMap,
    workspace: &Workspace,
    volumes: &Vec<String>,
    interactive: bool,
) -> (r: Result<BootstrapPlan, BError>)
    ensures
        match r {
            Ok(p) => {
                &&& engine_present
                &&& p.image@ == workspace.spec_settings().spec_docker_image()
                &&& p.cmd_line@ == cmd_line@
                &&& p.env@ == env@
                &&& p.top_dir@ == workspace.spec_settings().spec_docker_top_dir()
                &&& p.work_dir@ == workspace.spec_settings().spec_work_dir()
                &&& p.docker_args.deep_view() == workspace.spec_settings().spec_docker_args()
                &&& p.volumes@ == volumes@
                &&& p.interactive == interactive
            },
            Err(e) => !engine_present && e is ContainerEngineMissing,
        },
{
    if !engine_present {
        return Err(BError::ContainerEngineMissing);
    }
    Ok(BootstrapPlan {
        image: workspace.settings().docker_image().to_owned(),
        cmd_line: clone_strings(cmd_line),
        env: env.duplicate(),
        top_dir: workspace.settings().docker_top_dir().to_owned(),
        work_dir: workspace.settings().work_dir().to_owned(),
        docker_args: clone_strings(workspace.settings().docker_args()),
        volumes: clone_strings(volumes),
        interactive,
    })
}

} // verus!

use vstd::prelude::*;
use vstd::string::StringExecFns;
use crate::envmap::EnvMap;
use crate::error::BError;
use crate::strutil::{split_from, split_str};
use crate::task::WsTaskData;

verus! {

/// What executing a task amounts to, decided by the library; the shell
/// around it performs the plan. No plan is performed for `Skip`.
#[derive(Debug)]
pub enum ExecPlan {
    /// Execute nothing and report success, logging the intent message.
    Skip { info: String },
    /// Run the command line directly on the host with the given environment.
    Native { cmd_line: Vec<String>, env: EnvMap },
    /// Run the command line inside the named container image, with the
    /// given environment and the directory as the mount and working root.
    Container {
        image: String,
        cmd_line: Vec<String>,
        env: EnvMap,
        work_dir: String,
        interactive: bool,
    },
}

/// The command line a task executes: an explicit change to the task's
/// build directory, then the task command split at spaces, so that task
/// scripts may assume their build directory as the working directory.
pub open spec fn task_cmd_line(build_dir: Seq<char>, cmd: Seq<char>) -> Seq<Seq<char>> {
    seq!["cd"@, build_dir, "&&"@] + split_from(cmd, 0, ' ')
}

/// Composes the command line `cd <build_dir> && <cmd...>`.
pub fn compose_cmd_line(build_dir: &str, cmd: &str) -> (r: Vec<String>)
    ensures
        r.deep_view() == task_cmd_line(build_dir@, cmd@),
{
    let mut out: Vec<String> = Vec::new();
    out.push(String::from_str("cd"));
    out.push(build_dir.to_owned());
    out.push(String::from_str("&&"));
    let ghost head = out.deep_view();
    let words = split_str(cmd, ' ');
    let mut i: usize = 0;
    while i < words.len()
        invariant
            i <= words@.len(),
            words.deep_view() == split_from(cmd@, 0, ' '),
            out.deep_view() =~= head + words.deep_view().subrange(0, i as int),
            head =~= seq!["cd"@, build_dir@, "&&"@],
        decreases words@.len() - i,
    {
        let ghost old_views = out.deep_view();
        out.push(words[i].clone());
        i += 1;
        proof {
            assert(out.deep_view() =~= old_views + seq![words.deep_view()[i - 1]]);
            assert(out.deep_view() =~= head + words.deep_view().subrange(0, i as int));
        }
    }
    proof {
        assert(words.deep_view().subrange(0, words.deep_view().len() as int) =~= words.deep_view());
        assert(out.deep_view() =~= task_cmd_line(build_dir@, cmd@));
    }
    out
}

/// An executer turns one task into an execution plan.
pub trait TaskExecuter {
    fn exec(&self, env_variables: &EnvMap, dry_run: bool, interactive: bool) -> (r: Result<
        ExecPlan,
        BError,
    >);
}

/// Plans a build task. `dry_run` yields a plan that executes nothing;
/// otherwise the task command line runs in the task's container image when
/// one is set, else natively with the environment overrides merged over the
/// inherited environment, overrides winning on a shared name.
pub open spec fn build_plan_matches(
    task: &WsTaskData,
    cli_env: Map<Seq<char>, Seq<char>>,
    env: Map<Seq<char>, Seq<char>>,
    dry_run: bool,
    interactive: bool,
    p: ExecPlan,
) -> bool {
    if dry_run {
        &&& p matches ExecPlan::Skip { info }
        &&& info@ == "Dry run. Skipping build!"@
    } else {
        let cmd = task_cmd_line(task.spec_build_dir(), task.spec_build_cmd());
        if task.spec_requires_container() {
            &&& p matches ExecPlan::Container { image, cmd_line, env: penv, work_dir, interactive: pint }
            &&& image@ == task.spec_docker_image()
            &&& cmd_line.deep_view() == cmd
            &&& penv@ == env
            &&& work_dir@ == task.spec_build_dir()
            &&& pint == interactive
        } else {
            &&& p matches ExecPlan::Native { cmd_line, env: penv }
            &&& cmd_line.deep_view() == cmd
            &&& penv@ == cli_env.union_prefer_right(env)
        }
    }
}

/// Plans a clean task: the clean command line runs in the task's container
/// image when one is set, else natively with exactly the given environment.
/// Cleaning has no dry-run short-circuit.
pub open spec fn clean_plan_matches(
    task: &WsTaskData,
    env: Map<Seq<char>, Seq<char>>,
    interactive: bool,
    p: ExecPlan,
) -> bool {
    let cmd = task_cmd_line(task.spec_build_dir(), task.spec_clean_cmd());
    if task.spec_requires_container() {
        &&& p matches ExecPlan::Container { image, cmd_line, env: penv, work_dir, interactive: pint }
        &&& image@ == task.spec_docker_image()
        &&& cmd_line.deep_view() == cmd
        &&& penv@ == env
        &&& work_dir@ == task.spec_build_dir()
        &&& pint == interactive
    } else {
        &&& p matches ExecPlan::Native { cmd_line, env: penv }
        &&& cmd_line.deep_view() == cmd
        &&& penv@ == env
    }
}

/// Plans clean tasks.
pub struct CleanExecuter<'a> {
    pub task_data: &'a WsTaskData,
}

impl<'a> TaskExecuter for CleanExecuter<'a> {
    fn exec(&self, env_variables: &EnvMap, _dry_run: bool, interactive: bool) -> (r: Result<
        ExecPlan,
        BError,
    >)
        ensures
            r is Ok,
            clean_plan_matches(self.task_data, env_variables@, interactive, r->Ok_0),
    {
        let cmd_line = compose_cmd_line(self.task_data.build_dir(), self.task_data.clean_cmd());
        if self.task_data.requires_container() {
            Ok(ExecPlan::Container {
                image: self.task_data.docker_image().to_owned(),
                cmd_line,
                env: env_variables.duplicate(),
                work_dir: self.task_data.build_dir().to_owned(),
                interactive,
            })
        } else {
            Ok(ExecPlan::Native { cmd_line, env: env_variables.duplicate() })
        }
    }
}

impl<'a> CleanExecuter<'a> {
    pub fn new(task_data: &'a WsTaskData) -> (r: Self)
        ensures
            r.task_data == task_data,
    {
        CleanExecuter { task_data }
    }
}

/// Plans build tasks. Holds the inherited process environment so that a
/// native plan can merge the task's overrides over it.
pub struct BuildExecuter<'a> {
    pub cli_env: &'a EnvMap,
    pub task_data: &'a WsTaskData,
}

impl<'a> TaskExecuter for BuildExecuter<'a> {
    fn exec(&self, env_variables: &EnvMap, dry_run: bool, interactive: bool) -> (r: Result<
        ExecPlan,
        BError,
    >)
        ensures
            r is Ok,
            build_plan_matches(
                self.task_data,
                self.cli_env@,
                env_variables@,
                dry_run,
                interactive,
                r->Ok_0,
            ),
    {
        if dry_run {
            return Ok(ExecPlan::Skip { info: String::from_str("Dry run. Skipping build!") });
        }
        let cmd_line = compose_cmd_line(self.task_data.build_dir(), self.task_data.build_cmd());
        if self.task_data.requires_container() {
            Ok(ExecPlan::Container {
                image: self.task_data.docker_image().to_owned(),
                cmd_line,
                env: env_variables.duplicate(),
                work_dir: self.task_data.build_dir().to_owned(),
                interactive,
            })
        } else {
            Ok(ExecPlan::Native { cmd_line, env: env_variables.merged_over(self.cli_env) })
        }
    }
}

impl<'a> BuildExecuter<'a> {
    pub fn new(cli_env: &'a EnvMap, task_data: &'a WsTaskData) -> (r: Self)
        ensures
            r.cli_env == cli_env,
            r.task_data == task_data,
    {
        BuildExecuter { cli_env, task_data }
    }
}

} // verus!

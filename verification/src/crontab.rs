pub mod environment;
pub mod grammar;
pub mod hash;
pub mod json;
pub mod laws;
pub mod parser;
pub mod reader;
pub mod text;
pub mod tokens;

use self::environment::Environment;
use self::grammar::tokens_of;
use self::parser::Parser;
use self::reader::ReadError;
use self::tokens::{text_of, views_of, CronJob, CronJobView, Token, TokenView};
use vstd::prelude::*;
use vstd::std_specs::cmp::PartialEqSpecImpl;
use vstd::string::StringExecFns;

verus! {

/// The jobs among `tokens`, in their order. Ignored jobs are not among them.
pub open spec fn jobs_of(tokens: Seq<TokenView>) -> Seq<CronJobView>
    decreases tokens.len(),
{
    if tokens.len() == 0 {
        Seq::empty()
    } else {
        match tokens.last() {
            TokenView::CronJob(job) => jobs_of(tokens.drop_last()).push(job),
            _ => jobs_of(tokens.drop_last()),
        }
    }
}

/// The views of borrowed jobs, in the same order.
pub open spec fn job_views(jobs: Seq<&CronJob>) -> Seq<CronJobView> {
    jobs.map_values(|job: &CronJob| job@)
}

/// The view of a borrowed job, if there is one.
pub open spec fn job_view(job: Option<&CronJob>) -> Option<CronJobView> {
    match job {
        Some(job) => Some(job@),
        None => None,
    }
}

/// Whether `found` is the first of `jobs` that is `wanted`, or nothing
/// where none is.
pub open spec fn is_first_wanted(
    jobs: Seq<CronJobView>,
    wanted: spec_fn(CronJobView) -> bool,
    found: Option<CronJobView>,
) -> bool {
    match found {
        Some(job) => exists|i: int|
            0 <= i < jobs.len() && #[trigger] jobs[i] == job && wanted(job) && forall|j: int|
                0 <= j < i ==> !wanted(#[trigger] jobs[j]),
        None => forall|j: int| 0 <= j < jobs.len() ==> !wanted(#[trigger] jobs[j]),
    }
}

/// The index of the first token that is the job `target`, or the number of
/// tokens if none is: where the scan for a job's variables stops.
pub open spec fn scope_end(tokens: Seq<TokenView>, target: CronJobView) -> int
    decreases tokens.len(),
{
    if tokens.len() == 0 || tokens.first() == TokenView::CronJob(target) {
        0
    } else {
        1 + scope_end(tokens.drop_first(), target)
    }
}

/// The variables that `tokens` declare, each with the value that was
/// declared last.
pub open spec fn variables_in(tokens: Seq<TokenView>) -> Map<Seq<char>, Seq<char>>
    decreases tokens.len(),
{
    if tokens.len() == 0 {
        Map::empty()
    } else {
        let above = variables_in(tokens.drop_last());
        match tokens.last() {
            TokenView::Variable(variable) => above.insert(variable.identifier, variable.value),
            _ => above,
        }
    }
}

/// The variables that the job `target` sees: those declared above it.
pub open spec fn scoped_variables(tokens: Seq<TokenView>, target: CronJobView) -> Map<
    Seq<char>,
    Seq<char>,
> {
    variables_in(tokens.take(scope_end(tokens, target)))
}

/// The shell that runs a job unless the crontab sets `SHELL`.
pub const DEFAULT_SHELL: &'static str = "/bin/sh";

/// The name of the variable that sets the shell.
pub open spec fn shell_key() -> Seq<char> {
    "SHELL"@
}

/// The name of the variable that sets the working directory.
pub open spec fn home_key() -> Seq<char> {
    "HOME"@
}

/// Why a job that is not in the crontab did not run.
pub open spec fn missing_job_reason() -> Seq<char> {
    "The given job is not in the crontab."@
}

/// Why a job without a working directory did not run.
pub open spec fn missing_home_reason() -> Seq<char> {
    "Could not read Home directory from environment."@
}

/// Why a job whose shell could not be started did not run.
pub open spec fn failed_launch_reason() -> Seq<char> {
    "Failed to run command (does shell exist?)."@
}

/// All that starting a job takes.
#[derive(Debug)]
pub struct ShellCommand {
    /// The variables to add to the job's environment.
    pub env: Environment,
    /// The shell to start.
    pub shell: String,
    /// The directory to start it in.
    pub home: String,
    /// The command to hand to the shell, after `-c`.
    pub command: String,
}

/// What a [`ShellCommand`] holds: its variables as a map, its texts as
/// sequences of characters.
pub struct ShellCommandView {
    pub env: Map<Seq<char>, Seq<char>>,
    pub shell: Seq<char>,
    pub home: Seq<char>,
    pub command: Seq<char>,
}

impl View for ShellCommand {
    type V = ShellCommandView;

    open spec fn view(&self) -> ShellCommandView {
        ShellCommandView {
            env: self.env@,
            shell: self.shell@,
            home: self.home@,
            command: self.command@,
        }
    }
}

/// The shell command for `job`, or why there is none.
///
/// The job has to be among the tokens. `SHELL` and `HOME`, where the
/// crontab sets them above the job, give the shell and the working
/// directory and are taken out of the job's variables. Without `SHELL` the
/// shell is `/bin/sh`; without `HOME` the working directory is `home`, the
/// home directory of the calling process, which has to be known then.
pub open spec fn shell_command_of(
    tokens: Seq<TokenView>,
    job: CronJobView,
    home: Option<Seq<char>>,
) -> Result<ShellCommandView, Seq<char>> {
    let scoped = scoped_variables(tokens, job);
    let without_shell = scoped.remove(shell_key());
    if !jobs_of(tokens).contains(job) {
        Err(missing_job_reason())
    } else if !without_shell.contains_key(home_key()) && home is None {
        Err(missing_home_reason())
    } else {
        Ok(
            ShellCommandView {
                env: without_shell.remove(home_key()),
                shell: if scoped.contains_key(shell_key()) {
                    scoped[shell_key()]
                } else {
                    DEFAULT_SHELL@
                },
                home: if without_shell.contains_key(home_key()) {
                    without_shell[home_key()]
                } else {
                    home->0
                },
                command: job.command,
            },
        )
    }
}

/// Low level detail about the result of a run.
#[derive(Debug)]
pub enum RunResultDetail {
    /// The command ran. The exit code is `None` if the process was killed
    /// early.
    DidRun { exit_code: Option<i32> },
    /// The command did not run at all; `reason` says why.
    DidNotRun { reason: String },
    /// The command was started in detached mode and is still running.
    IsRunning { pid: u32 },
}

/// What a [`RunResultDetail`] holds, its reason as a sequence of
/// characters.
pub enum RunResultDetailView {
    DidRun { exit_code: Option<i32> },
    DidNotRun { reason: Seq<char> },
    IsRunning { pid: u32 },
}

impl View for RunResultDetail {
    type V = RunResultDetailView;

    open spec fn view(&self) -> RunResultDetailView {
        match self {
            RunResultDetail::DidRun { exit_code } => RunResultDetailView::DidRun {
                exit_code: *exit_code,
            },
            RunResultDetail::DidNotRun { reason } => RunResultDetailView::DidNotRun {
                reason: reason@,
            },
            RunResultDetail::IsRunning { pid } => RunResultDetailView::IsRunning { pid: *pid },
        }
    }
}

impl PartialEq for RunResultDetail {
    fn eq(&self, other: &Self) -> (same: bool) {
        match (self, other) {
            (
                RunResultDetail::DidRun { exit_code: left },
                RunResultDetail::DidRun { exit_code: right },
            ) => match (left, right) {
                (Some(left), Some(right)) => *left == *right,
                (None, None) => true,
                _ => false,
            },
            (
                RunResultDetail::DidNotRun { reason: left },
                RunResultDetail::DidNotRun { reason: right },
            ) => *left == *right,
            (RunResultDetail::IsRunning { pid: left }, RunResultDetail::IsRunning { pid: right }) => {
                *left == *right
            },
            _ => false,
        }
    }
}

impl PartialEqSpecImpl for RunResultDetail {
    open spec fn obeys_eq_spec() -> bool {
        true
    }

    open spec fn eq_spec(&self, other: &Self) -> bool {
        self@ == other@
    }
}

impl Eq for RunResultDetail {

}

/// What came of a run.
#[derive(Debug)]
pub struct RunResult {
    /// Whether the command ran and exited with status 0. A command that was
    /// started in detached mode has not exited yet, so this is `false`
    /// for it; `detail` tells whether it was started.
    pub was_successful: bool,
    /// The exit code, the process id or the reason of the failure.
    pub detail: RunResultDetail,
}

/// What a [`RunResult`] holds.
pub struct RunResultView {
    pub was_successful: bool,
    pub detail: RunResultDetailView,
}

impl View for RunResult {
    type V = RunResultView;

    open spec fn view(&self) -> RunResultView {
        RunResultView { was_successful: self.was_successful, detail: self.detail@ }
    }
}

impl PartialEq for RunResult {
    fn eq(&self, other: &Self) -> (same: bool) {
        self.was_successful == other.was_successful && self.detail == other.detail
    }
}

impl PartialEqSpecImpl for RunResult {
    open spec fn obeys_eq_spec() -> bool {
        true
    }

    open spec fn eq_spec(&self, other: &Self) -> bool {
        self@ == other@
    }
}

impl Eq for RunResult {

}

/// What came of asking the system to start the shell.
#[derive(Clone, Copy, Debug, PartialEq, Eq, Structural)]
pub enum Launch {
    /// The shell ran until it exited; the exit code is `None` if a signal
    /// killed it.
    Exited { exit_code: Option<i32> },
    /// The shell was started and left to run.
    Detached { pid: u32 },
    /// The shell could not be started.
    Failed,
}

/// The result of a run, by what came of starting the shell. Only a shell
/// that exited with status 0 is a success.
pub open spec fn run_result_of(launch: Launch) -> RunResultView {
    match launch {
        Launch::Exited { exit_code } => RunResultView {
            was_successful: exit_code == Some(0i32),
            detail: RunResultDetailView::DidRun { exit_code },
        },
        Launch::Detached { pid } => RunResultView {
            was_successful: false,
            detail: RunResultDetailView::IsRunning { pid },
        },
        Launch::Failed => RunResultView {
            was_successful: false,
            detail: RunResultDetailView::DidNotRun { reason: failed_launch_reason() },
        },
    }
}

/// The result of a run that did not get as far as starting the shell.
pub open spec fn did_not_run(reason: Seq<char>) -> RunResultView {
    RunResultView { was_successful: false, detail: RunResultDetailView::DidNotRun { reason } }
}

impl RunResult {
    /// The result of a run, once the system has answered.
    pub fn from_launch(launch: Launch) -> (result: Self)
        ensures
            result@ == run_result_of(launch),
    {
        match launch {
            Launch::Exited { exit_code } => {
                let was_successful = match exit_code {
                    Some(code) => code == 0,
                    None => false,
                };
                RunResult { was_successful, detail: RunResultDetail::DidRun { exit_code } }
            },
            Launch::Detached { pid } => RunResult {
                was_successful: false,
                detail: RunResultDetail::IsRunning { pid },
            },
            Launch::Failed => RunResult {
                was_successful: false,
                detail: RunResultDetail::DidNotRun {
                    reason: String::from_str("Failed to run command (does shell exist?)."),
                },
            },
        }
    }
}

/// The jobs of a crontab, and how to run them.
#[derive(Debug)]
pub struct Crontab {
    /// The tokens of the crontab, in the order of its lines.
    pub tokens: Vec<Token>,
    /// The environment that replaces the one inherited from the calling
    /// process, if one was set.
    pub env: Option<Environment>,
}

impl View for Crontab {
    type V = Seq<TokenView>;

    open spec fn view(&self) -> Seq<TokenView> {
        views_of(self.tokens@)
    }
}

impl Crontab {
    /// A crontab made of `tokens`, which runs jobs in the environment of
    /// the calling process.
    pub fn new(tokens: Vec<Token>) -> (crontab: Self)
        ensures
            crontab.tokens == tokens,
            crontab.env is None,
    {
        Self { tokens, env: None }
    }

    /// Whether there are jobs in the crontab at all.
    pub fn has_runnable_jobs(&self) -> (yes: bool)
        ensures
            yes == (jobs_of(self@).len() > 0),
    {
        self.jobs().len() > 0
    }

    /// All the jobs, and only the jobs, in the order of the crontab.
    pub fn jobs(&self) -> (jobs: Vec<&CronJob>)
        ensures
            job_views(jobs@) == jobs_of(self@),
    {
        let mut jobs: Vec<&CronJob> = Vec::new();
        let mut i: usize = 0;
        proof {
            assert(self@.take(0) =~= Seq::<TokenView>::empty());
            assert(job_views(jobs@) =~= Seq::<CronJobView>::empty());
        }
        while i < self.tokens.len()
            invariant
                i <= self.tokens@.len(),
                job_views(jobs@) == jobs_of(self@.take(i as int)),
            decreases self.tokens@.len() - i,
        {
            proof {
                assert(self@.take(i + 1).drop_last() =~= self@.take(i as int));
                assert(self@.take(i + 1).last() == self.tokens@[i as int]@);
            }
            let ghost before = job_views(jobs@);
            if let Token::CronJob(job) = &self.tokens[i] {
                jobs.push(job);
                proof {
                    assert(job_views(jobs@) =~= before.push(job@));
                }
            }
            i += 1;
        }
        proof {
            assert(self@.take(i as int) =~= self@);
        }
        jobs
    }

    /// Whether a given job is in the crontab: whether one of the jobs
    /// equals it field by field.
    pub fn has_job(&self, job: &CronJob) -> (yes: bool)
        ensures
            yes == jobs_of(self@).contains(job@),
    {
        let jobs = self.jobs();
        let mut i: usize = 0;
        while i < jobs.len()
            invariant
                i <= jobs@.len(),
                job_views(jobs@) == jobs_of(self@),
                forall|j: int| 0 <= j < i ==> jobs_of(self@)[j] != job@,
            decreases jobs@.len() - i,
        {
            proof {
                assert(job_views(jobs@)[i as int] == jobs@[i as int]@);
            }
            if *jobs[i] == *job {
                return true;
            }
            i += 1;
        }
        false
    }

    /// The first job with this `uid`.
    pub fn get_job_from_uid(&self, uid: usize) -> (found: Option<&CronJob>)
        ensures
            is_first_wanted(jobs_of(self@), |job: CronJobView| job.uid == uid, job_view(found)),
    {
        let jobs = self.jobs();
        let ghost wanted = |job: CronJobView| job.uid == uid;
        let mut i: usize = 0;
        while i < jobs.len()
            invariant
                i <= jobs@.len(),
                job_views(jobs@) == jobs_of(self@),
                wanted == (|job: CronJobView| job.uid == uid),
                forall|j: int| 0 <= j < i ==> !wanted(#[trigger] jobs_of(self@)[j]),
            decreases jobs@.len() - i,
        {
            proof {
                assert(job_views(jobs@)[i as int] == jobs@[i as int]@);
            }
            if jobs[i].uid == uid {
                return Some(jobs[i]);
            }
            i += 1;
        }
        None
    }

    /// The first job with this `fingerprint`.
    pub fn get_job_from_fingerprint(&self, fingerprint: u64) -> (found: Option<&CronJob>)
        ensures
            is_first_wanted(
                jobs_of(self@),
                |job: CronJobView| job.fingerprint == fingerprint,
                job_view(found),
            ),
    {
        let jobs = self.jobs();
        let ghost wanted = |job: CronJobView| job.fingerprint == fingerprint;
        let mut i: usize = 0;
        while i < jobs.len()
            invariant
                i <= jobs@.len(),
                job_views(jobs@) == jobs_of(self@),
                wanted == (|job: CronJobView| job.fingerprint == fingerprint),
                forall|j: int| 0 <= j < i ==> !wanted(#[trigger] jobs_of(self@)[j]),
            decreases jobs@.len() - i,
        {
            proof {
                assert(job_views(jobs@)[i as int] == jobs@[i as int]@);
            }
            if jobs[i].fingerprint == fingerprint {
                return Some(jobs[i]);
            }
            i += 1;
        }
        None
    }

    /// The first job with this `tag`.
    pub fn get_job_from_tag(&self, tag: &str) -> (found: Option<&CronJob>)
        ensures
            is_first_wanted(
                jobs_of(self@),
                |job: CronJobView| job.tag == Some(tag@),
                job_view(found),
            ),
    {
        let jobs = self.jobs();
        let wanted_tag = tag.to_owned();
        let ghost wanted = |job: CronJobView| job.tag == Some(tag@);
        let mut i: usize = 0;
        while i < jobs.len()
            invariant
                i <= jobs@.len(),
                job_views(jobs@) == jobs_of(self@),
                wanted_tag@ == tag@,
                wanted == (|job: CronJobView| job.tag == Some(tag@)),
                forall|j: int| 0 <= j < i ==> !wanted(#[trigger] jobs_of(self@)[j]),
            decreases jobs@.len() - i,
        {
            proof {
                assert(job_views(jobs@)[i as int] == jobs@[i as int]@);
            }
            if let Some(job_tag) = &jobs[i].tag {
                if *job_tag == wanted_tag {
                    return Some(jobs[i]);
                }
            }
            i += 1;
        }
        None
    }

    /// Replaces the environment that jobs inherit from the calling process.
    ///
    /// The two are not merged: with `env` set, a job gets `env` and the
    /// variables that the crontab declares above it, and nothing of the
    /// calling process's environment. The variables of the crontab are not
    /// touched.
    pub fn set_env(&mut self, env: Environment)
        ensures
            final(self).env == Some(env),
            final(self).tokens == old(self).tokens,
    {
        self.env = Some(env);
    }

    /// Prepares the run of `job`: the shell command to start, or the result
    /// of a run that cannot start.
    ///
    /// `home` is the home directory of the calling process, if it has one;
    /// it is the working directory of a job for which the crontab sets no
    /// `HOME`.
    pub fn prepare_command(&self, job: &CronJob, home: Option<String>) -> (prepared: Result<
        ShellCommand,
        RunResult,
    >)
        ensures
            match shell_command_of(self@, job@, text_of(home)) {
                Ok(command) => prepared is Ok && prepared->Ok_0@ == command,
                Err(reason) => prepared is Err && prepared->Err_0@ == did_not_run(reason),
            },
    {
        match self.make_shell_command(job, home) {
            Ok(shell_command) => Ok(shell_command),
            Err(reason) => Err(
                RunResult { was_successful: false, detail: RunResultDetail::DidNotRun { reason } },
            ),
        }
    }

    /// The environment to start the shell of `shell_command` in, where
    /// `set_env` has put one in the place of the inherited one: that
    /// environment, and on top of it the variables of the crontab, which take
    /// precedence. `None` where the shell inherits the environment of the
    /// calling process, to which the variables of the crontab are added.
    pub fn job_env(&self, shell_command: &ShellCommand) -> (env: Option<Environment>)
        ensures
            match self.env {
                Some(base) => env is Some && env->0@ == base@.union_prefer_right(
                    shell_command.env@,
                ),
                None => env is None,
            },
    {
        match &self.env {
            Some(base) => {
                let mut env = base.clone();
                env.extend(&shell_command.env);
                Some(env)
            },
            None => None,
        }
    }

    /// The shell command that runs `job`, or the reason why it cannot run.
    pub fn make_shell_command(&self, job: &CronJob, home: Option<String>) -> (made: Result<
        ShellCommand,
        String,
    >)
        ensures
            match shell_command_of(self@, job@, text_of(home)) {
                Ok(command) => made is Ok && made->Ok_0@ == command,
                Err(reason) => made is Err && made->Err_0@ == reason,
            },
    {
        if let Err(reason) = self.ensure_job_exists(job) {
            return Err(reason);
        }
        let mut env = self.extract_variables(job);
        let shell = Self::determine_shell_to_use(&mut env);
        let home = match Self::determine_home_to_use(&mut env, home) {
            Ok(home) => home,
            Err(reason) => {
                return Err(reason);
            },
        };
        let command = job.command.clone();

        Ok(ShellCommand { env, shell, home, command })
    }

    fn ensure_job_exists(&self, job: &CronJob) -> (exists: Result<(), String>)
        ensures
            exists is Ok <==> jobs_of(self@).contains(job@),
            exists is Err ==> exists->Err_0@ == missing_job_reason(),
    {
        if !self.has_job(job) {
            return Err(String::from_str("The given job is not in the crontab."));
        }
        Ok(())
    }

    /// The variables that the crontab declares above `target_job`.
    fn extract_variables(&self, target_job: &CronJob) -> (variables: Environment)
        ensures
            variables@ == scoped_variables(self@, target_job@),
    {
        let mut variables = Environment::new();
        let mut i: usize = 0;
        proof {
            assert(self@.skip(0) =~= self@);
            assert(self@.take(0) =~= Seq::<TokenView>::empty());
        }
        while i < self.tokens.len()
            invariant
                i <= self.tokens@.len(),
                variables@ == variables_in(self@.take(i as int)),
                scope_end(self@, target_job@) == i + scope_end(self@.skip(i as int), target_job@),
            decreases self.tokens@.len() - i,
        {
            proof {
                assert(self@.take(i + 1).drop_last() =~= self@.take(i as int));
                assert(self@.take(i + 1).last() == self.tokens@[i as int]@);
                assert(self@.skip(i as int).first() == self.tokens@[i as int]@);
                assert(self@.skip(i as int).drop_first() =~= self@.skip(i + 1));
            }
            match &self.tokens[i] {
                Token::Variable(variable) => {
                    variables.insert(variable.identifier.clone(), variable.value.clone());
                },
                Token::CronJob(job) => {
                    if *job == *target_job {
                        // Variables coming after the job are not used.
                        return variables;
                    }
                },
                _ => {},
            }
            i += 1;
        }
        proof {
            assert(self@.take(i as int) =~= self@);
        }
        variables
    }

    fn determine_shell_to_use(env: &mut Environment) -> (shell: String)
        ensures
            final(env)@ == old(env)@.remove(shell_key()),
            shell@ == if old(env)@.contains_key(shell_key()) {
                old(env)@[shell_key()]
            } else {
                DEFAULT_SHELL@
            },
    {
        if let Some(shell) = env.remove("SHELL") {
            // Set explicitly in the crontab.
            shell
        } else {
            String::from_str(DEFAULT_SHELL)
        }
    }

    fn determine_home_to_use(env: &mut Environment, home: Option<String>) -> (found: Result<
        String,
        String,
    >)
        ensures
            final(env)@ == old(env)@.remove(home_key()),
            found is Err <==> !old(env)@.contains_key(home_key()) && home is None,
            found is Err ==> found->Err_0@ == missing_home_reason(),
            found is Ok ==> found->Ok_0@ == if old(env)@.contains_key(home_key()) {
                old(env)@[home_key()]
            } else {
                home->0@
            },
    {
        if let Some(home) = env.remove("HOME") {
            // Set explicitly in the crontab.
            Ok(home)
        } else {
            Self::get_home_directory(home)
        }
    }

    /// The home directory of the calling process, or the reason why a job
    /// that needs it cannot run.
    pub fn get_home_directory(home: Option<String>) -> (found: Result<String, String>)
        ensures
            found is Err <==> home is None,
            found is Err ==> found->Err_0@ == missing_home_reason(),
            found is Ok ==> found->Ok_0@ == home->0@,
    {
        if let Some(home_directory) = home {
            Ok(home_directory)
        } else {
            Err(String::from_str("Could not read Home directory from environment."))
        }
    }
}

/// A crontab made of what reading the current user's crontab came to: its
/// tokens where the read gave text, else the error of the read.
pub fn make_instance(read: Result<String, ReadError>) -> (made: Result<Crontab, ReadError>)
    ensures
        match read {
            Ok(text) => made is Ok && made->Ok_0@ == tokens_of(text@) && made->Ok_0.env is None,
            Err(error) => made is Err && made->Err_0 == error,
        },
{
    match read {
        Ok(crontab) => {
            let tokens = Parser::parse(crontab.as_str());
            Ok(Crontab::new(tokens))
        },
        Err(error) => Err(error),
    }
}

} // verus!

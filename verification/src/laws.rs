use vstd::prelude::*;

use crate::dockerfile_job::{next_state, Action, DockerfileJob, JobState, Outcome};
use crate::error::BuildError;
use crate::output_dir::path_join;

verus! {

/// The state a job reaches after the outcomes `outs`, reported in order.
pub open spec fn state_after(job: DockerfileJob, outs: Seq<Outcome>) -> JobState
    decreases outs.len(),
{
    if outs.len() == 0 {
        job.state
    } else {
        next_state(state_after(job, outs.drop_last()), outs.last())
    }
}

/// The actions a job hands back, one for each of the outcomes `outs`.
pub open spec fn actions(job: DockerfileJob, outs: Seq<Outcome>) -> Seq<Action> {
    Seq::new(outs.len(), |i: int| job.with_state(state_after(job, outs.take(i + 1))).pending())
}

/// How far along the fixed order of steps a state lies.
pub open spec fn rank(state: JobState) -> int {
    match state {
        JobState::EnsuringOutput => 0,
        JobState::Generating => 1,
        JobState::CreatingDockerfile(_) => 2,
        JobState::WritingDockerfile(_) => 3,
        JobState::WritingSupportingFiles => 4,
        JobState::Finished => 5,
        JobState::Failed(_) => 6,
    }
}

proof fn lemma_state_after_step(job: DockerfileJob, outs: Seq<Outcome>, n: int)
    requires
        0 <= n < outs.len(),
    ensures
        state_after(job, outs.take(n + 1)) == next_state(state_after(job, outs.take(n)), outs[n]),
{
    assert(outs.take(n + 1).drop_last() =~= outs.take(n));
}

/// Once a job has finished or failed, no outcome changes its state.
pub proof fn lemma_stopped_job_stays_stopped(state: JobState, outcome: Outcome)
    requires
        state is Finished || state is Failed,
    ensures
        next_state(state, outcome) == state,
{
}

/// Every step either leaves the state as it is or moves strictly forward in
/// the order: output directories, generation, creating the Dockerfile,
/// writing it, supporting files, then finished (or failed).
pub proof fn lemma_steps_only_move_forward(state: JobState, outcome: Outcome)
    ensures
        next_state(state, outcome) == state || rank(next_state(state, outcome)) > rank(state),
{
}

/// When every step succeeds, a fresh job asks for the generated text, then
/// creates the Dockerfile, writes exactly that text into it, writes the
/// supporting files and finishes.
pub proof fn lemma_successful_run(job: DockerfileJob, text: String)
    requires
        job.state is EnsuringOutput,
    ensures
        ({
            let outs = seq![
                Outcome::Done,
                Outcome::Generated(text),
                Outcome::Done,
                Outcome::Done,
                Outcome::Done,
            ];
            &&& actions(job, outs) == seq![
                Action::GenerateDockerfile,
                Action::CreateFile { path: job.dockerfile_path },
                Action::WriteFile { path: job.dockerfile_path, contents: text },
                Action::WriteSupportingFiles,
                Action::Finish,
            ]
            &&& state_after(job, outs) is Finished
        }),
{
    let outs = seq![
        Outcome::Done,
        Outcome::Generated(text),
        Outcome::Done,
        Outcome::Done,
        Outcome::Done,
    ];
    assert(outs.take(0).len() == 0);
    lemma_state_after_step(job, outs, 0);
    lemma_state_after_step(job, outs, 1);
    lemma_state_after_step(job, outs, 2);
    lemma_state_after_step(job, outs, 3);
    lemma_state_after_step(job, outs, 4);
    assert(outs.take(5) =~= outs);
    assert(actions(job, outs) =~= seq![
        Action::GenerateDockerfile,
        Action::CreateFile { path: job.dockerfile_path },
        Action::WriteFile { path: job.dockerfile_path, contents: text },
        Action::WriteSupportingFiles,
        Action::Finish,
    ]);
}

proof fn lemma_failed_state_persists(job: DockerfileJob, outs: Seq<Outcome>, i: int, j: int)
    requires
        0 <= i <= j <= outs.len(),
        state_after(job, outs.take(i)) is Failed || state_after(job, outs.take(i)) is Finished,
    ensures
        state_after(job, outs.take(j)) == state_after(job, outs.take(i)),
    decreases j - i,
{
    if j > i {
        lemma_failed_state_persists(job, outs, i, j - 1);
        lemma_state_after_step(job, outs, j - 1);
    }
}

/// Once a job has reported a failure, it reports that same failure for
/// every later outcome: nothing more is asked for.
pub proof fn lemma_failure_is_final(job: DockerfileJob, outs: Seq<Outcome>, i: int, j: int)
    requires
        0 <= i < j < outs.len(),
        actions(job, outs)[i] is Fail,
    ensures
        actions(job, outs)[j] == actions(job, outs)[i],
{
    lemma_failed_state_persists(job, outs, i + 1, j + 1);
}

/// What a fresh job has passed through after the first `n` outcomes: any
/// text it holds came from a `Generated` outcome, and it reaches the
/// supporting files only after it asked for the Dockerfile to be written.
proof fn lemma_fresh_run_history(job: DockerfileJob, outs: Seq<Outcome>, n: int)
    requires
        job.state is EnsuringOutput,
        0 <= n <= outs.len(),
    ensures
        state_after(job, outs.take(n)) matches JobState::CreatingDockerfile(t) ==> exists|k: int|
            0 <= k < n && outs[k] == Outcome::Generated(t),
        state_after(job, outs.take(n)) matches JobState::WritingDockerfile(t) ==> exists|k: int|
            0 <= k < n && outs[k] == Outcome::Generated(t),
        (state_after(job, outs.take(n)) is WritingSupportingFiles || state_after(
            job,
            outs.take(n),
        ) is Finished) ==> exists|m: int|
            1 <= m < n && #[trigger] state_after(job, outs.take(m)) is WritingDockerfile,
    decreases n,
{
    if n == 0 {
        assert(outs.take(0).len() == 0);
    } else {
        lemma_fresh_run_history(job, outs, n - 1);
        lemma_state_after_step(job, outs, n - 1);
        let prev = state_after(job, outs.take(n - 1));
        let cur = state_after(job, outs.take(n));
        if n - 1 == 0 {
            assert(outs.take(0).len() == 0);
            assert(prev is EnsuringOutput);
        }
        match cur {
            JobState::CreatingDockerfile(t) => {
                if prev is Generating {
                    assert(outs[n - 1] == Outcome::Generated(t));
                }
            },
            JobState::WritingDockerfile(t) => {},
            JobState::WritingSupportingFiles => {
                if prev is WritingDockerfile {
                    assert(state_after(job, outs.take(n - 1)) is WritingDockerfile);
                }
            },
            _ => {},
        }
    }
}

/// In any run of a fresh job, a request to write the Dockerfile names the
/// job's Dockerfile path and carries exactly the text that an earlier
/// `Generated` outcome delivered.
pub proof fn lemma_written_text_was_generated(job: DockerfileJob, outs: Seq<Outcome>, i: int)
    requires
        job.state is EnsuringOutput,
        0 <= i < outs.len(),
    ensures
        actions(job, outs)[i] matches Action::WriteFile { path, contents } ==> {
            &&& path == job.dockerfile_path
            &&& exists|k: int| 0 <= k <= i && outs[k] == Outcome::Generated(contents)
        },
{
    lemma_fresh_run_history(job, outs, i + 1);
}

/// In any run of a fresh job, the supporting files are asked for, and the
/// job finishes, only after the Dockerfile was asked to be written.
pub proof fn lemma_supporting_files_follow_dockerfile(
    job: DockerfileJob,
    outs: Seq<Outcome>,
    i: int,
)
    requires
        job.state is EnsuringOutput,
        0 <= i < outs.len(),
        actions(job, outs)[i] is WriteSupportingFiles || actions(job, outs)[i] is Finish,
    ensures
        exists|k: int| 0 <= k < i && #[trigger] actions(job, outs)[k] is WriteFile,
{
    lemma_fresh_run_history(job, outs, i + 1);
    let m = choose|m: int|
        1 <= m < i + 1 && #[trigger] state_after(job, outs.take(m)) is WritingDockerfile;
    assert(actions(job, outs)[m - 1] is WriteFile);
}

proof fn lemma_join_extends_base(base: Seq<char>, name: Seq<char>)
    ensures
        base.is_prefix_of(path_join(base, name)),
{
    let joined = path_join(base, name);
    assert(joined.subrange(0, base.len() as int) =~= base);
}

/// Every path that a well-formed job asks to be created or written lies
/// inside the output directory that the options named.
pub proof fn lemma_paths_stay_in_output_dir(job: DockerfileJob)
    requires
        job.wf(),
    ensures
        match job.pending() {
            Action::EnsureOutputExists { root, asset_root } => {
                &&& root == job.output.root
                &&& job.output.root@.is_prefix_of(asset_root@)
            },
            Action::CreateFile { path } => job.output.root@.is_prefix_of(path@),
            Action::WriteFile { path, contents: _ } => job.output.root@.is_prefix_of(path@),
            _ => true,
        },
{
    let root = job.output.root@;
    let assets = job.output.asset_root@;
    lemma_join_extends_base(root, crate::output_dir::assets_dir_name());
    lemma_join_extends_base(assets, crate::dockerfile_job::dockerfile_name());
    assert(root.is_prefix_of(job.dockerfile_path@)) by {
        assert(job.dockerfile_path@.subrange(0, root.len() as int) =~= assets.subrange(
            0,
            root.len() as int,
        ));
    }
}

/// A failure reported while a step is pending stops the job at once, with
/// the error of that step and the reported message: creating the output
/// directories, generating, creating the Dockerfile, writing it, and writing
/// the supporting files each fail with their own error.
pub proof fn lemma_failure_stops_job(state: JobState, c: String)
    ensures
        match state {
            JobState::EnsuringOutput => next_state(state, Outcome::Failed(c)) == JobState::Failed(
                BuildError::OutputDirUnavailable(c),
            ),
            JobState::Generating => next_state(state, Outcome::Failed(c)) == JobState::Failed(
                BuildError::Generate(c),
            ),
            JobState::CreatingDockerfile(_) => next_state(state, Outcome::Failed(c))
                == JobState::Failed(BuildError::CreateDockerfile(c)),
            JobState::WritingDockerfile(_) => next_state(state, Outcome::Failed(c))
                == JobState::Failed(BuildError::WriteDockerfile(c)),
            JobState::WritingSupportingFiles => next_state(state, Outcome::Failed(c))
                == JobState::Failed(BuildError::SupportingFiles(c)),
            _ => next_state(state, Outcome::Failed(c)) == state,
        },
{
}

/// A success reported for the pending step moves the job to the next step
/// in the fixed order, keeping the generated text for the Dockerfile steps.
pub proof fn lemma_success_moves_to_next_step(state: JobState, text: String)
    ensures
        match state {
            JobState::EnsuringOutput => next_state(state, Outcome::Done) is Generating,
            JobState::Generating => next_state(state, Outcome::Generated(text))
                == JobState::CreatingDockerfile(text),
            JobState::CreatingDockerfile(t) => next_state(state, Outcome::Done)
                == JobState::WritingDockerfile(t),
            JobState::WritingDockerfile(_) => next_state(
                state,
                Outcome::Done,
            ) is WritingSupportingFiles,
            JobState::WritingSupportingFiles => next_state(state, Outcome::Done) is Finished,
            _ => true,
        },
{
}

/// What a well-formed job asks for names its own layout: first the output
/// directory and, exactly, the assets directory that holds the Dockerfile;
/// then the Dockerfile path (the assets directory, a `/`, and `Dockerfile`),
/// with exactly the text the job holds.
pub proof fn lemma_requests_name_the_layout(job: DockerfileJob)
    requires
        job.wf(),
    ensures
        job.dockerfile_path@ == job.output.asset_root@ + "/Dockerfile"@,
        job.state is EnsuringOutput ==> (job.pending() == Action::EnsureOutputExists {
            root: job.output.root,
            asset_root: job.output.asset_root,
        }),
        job.state is CreatingDockerfile ==> (job.pending() == Action::CreateFile {
            path: job.dockerfile_path,
        }),
        job.state matches JobState::WritingDockerfile(t) ==> (job.pending() == Action::WriteFile {
            path: job.dockerfile_path,
            contents: t,
        }),
{
    reveal_strlit("/Dockerfile");
    reveal_strlit("Dockerfile");
    reveal_strlit(".nixpacks");
    let r = job.output.root@;
    let a = job.output.asset_root@;
    let n = ".nixpacks"@;
    assert(a.len() > 0 && a.last() == 's') by {
        if r.len() == 0 || r.last() == '/' {
            assert(a == r + n);
            assert(a[a.len() - 1] == n[n.len() - 1]);
        } else {
            assert(a == r + seq!['/'] + n);
            assert(a[a.len() - 1] == n[n.len() - 1]);
        }
    }
    assert(job.dockerfile_path@ =~= a + "/Dockerfile"@);
}

/// Joining onto a base puts exactly one `/` between base and name: none is
/// added when the base is empty or already ends with `/`.
pub proof fn lemma_join_puts_one_separator(base: Seq<char>, name: Seq<char>)
    ensures
        base.len() == 0 ==> path_join(base, name) == name,
        base.len() > 0 && base.last() == '/' ==> path_join(base, name) == base + name,
        base.len() > 0 && base.last() != '/' ==> path_join(base, name) == base + "/"@ + name,
{
    reveal_strlit("/");
    assert(base.len() == 0 ==> base + name =~= name);
}

proof fn lemma_unstopped_run_history(job: DockerfileJob, outs: Seq<Outcome>, n: int)
    requires
        0 <= n <= outs.len(),
        !(state_after(job, outs.take(n)) is Failed),
    ensures
        forall|k: int|
            0 <= k < n && #[trigger] outs[k] is Failed ==> state_after(job, outs.take(k)) is Finished,
    decreases n,
{
    if n > 0 {
        lemma_state_after_step(job, outs, n - 1);
        let prev = state_after(job, outs.take(n - 1));
        if prev is Failed {
            lemma_stopped_job_stays_stopped(prev, outs[n - 1]);
        }
        lemma_unstopped_run_history(job, outs, n - 1);
        if outs[n - 1] is Failed {
            lemma_failure_stops_job(prev, outs[n - 1]->Failed_0);
        }
    }
}

/// A job that has not failed has met no failure before it finished: every
/// failure reported while a step was pending has stopped the job. So a job
/// asks for the supporting files only if every outcome so far was a success.
pub proof fn lemma_progress_needs_success(job: DockerfileJob, outs: Seq<Outcome>, i: int)
    requires
        !(job.state is Finished),
        0 <= i < outs.len(),
        !(actions(job, outs)[i] is Fail),
    ensures
        forall|k: int|
            0 <= k <= i && #[trigger] outs[k] is Failed ==> state_after(job, outs.take(k)) is Finished,
        actions(job, outs)[i] is WriteSupportingFiles ==> forall|k: int|
            0 <= k <= i ==> !(#[trigger] outs[k] is Failed),
{
    let cur = state_after(job, outs.take(i + 1));
    assert(!(cur is Failed));
    lemma_unstopped_run_history(job, outs, i + 1);
    if actions(job, outs)[i] is WriteSupportingFiles {
        assert forall|k: int| 0 <= k <= i implies !(#[trigger] outs[k] is Failed) by {
            if outs[k] is Failed {
                if k == 0 {
                    assert(outs.take(0).len() == 0);
                }
                lemma_failed_state_persists(job, outs, k, i + 1);
            }
        }
    }
}

} // verus!

use vstd::prelude::*;

use crate::error::BuildError;
use crate::output_dir::{path_join, OutputDir};

verus! {

/// How far writing a Dockerfile has got.
#[derive(Debug)]
pub enum JobState {
    /// Waiting for the output directories to be made ready.
    EnsuringOutput,
    /// Waiting for the build plan to be turned into a Dockerfile.
    Generating,
    /// Waiting for the Dockerfile, whose text is held, to be created.
    CreatingDockerfile(String),
    /// Waiting for the held text to be written into the Dockerfile.
    WritingDockerfile(String),
    /// Waiting for the supporting files to be written.
    WritingSupportingFiles,
    /// Everything was written.
    Finished,
    /// A step failed; nothing more is done.
    Failed(BuildError),
}

/// What the step that was asked for reported.
#[derive(Debug)]
pub enum Outcome {
    /// The step succeeded.
    Done,
    /// The Dockerfile was generated with this text.
    Generated(String),
    /// The step failed with this message.
    Failed(String),
}

/// The work the caller must do next.
#[derive(Debug)]
pub enum Action {
    /// Make sure both directories exist.
    EnsureOutputExists { root: String, asset_root: String },
    /// Turn the build plan into the text of a Dockerfile.
    GenerateDockerfile,
    /// Create (or truncate) the file at `path`.
    CreateFile { path: String },
    /// Write `contents` into the file at `path`.
    WriteFile { path: String, contents: String },
    /// Write the plan's supporting files into the output directory.
    WriteSupportingFiles,
    /// Stop: everything was written.
    Finish,
    /// Stop: writing failed with this error.
    Fail(BuildError),
}

/// The state that a job in `state` moves to when the step it asked for
/// reports `outcome`. An outcome that does not answer the pending step
/// leaves the state as it is.
pub open spec fn next_state(state: JobState, outcome: Outcome) -> JobState {
    match (state, outcome) {
        (JobState::EnsuringOutput, Outcome::Done) => JobState::Generating,
        (JobState::EnsuringOutput, Outcome::Failed(c)) => JobState::Failed(
            BuildError::OutputDirUnavailable(c),
        ),
        (JobState::Generating, Outcome::Generated(text)) => JobState::CreatingDockerfile(text),
        (JobState::Generating, Outcome::Failed(c)) => JobState::Failed(BuildError::Generate(c)),
        (JobState::CreatingDockerfile(text), Outcome::Done) => JobState::WritingDockerfile(text),
        (JobState::CreatingDockerfile(_), Outcome::Failed(c)) => JobState::Failed(
            BuildError::CreateDockerfile(c),
        ),
        (JobState::WritingDockerfile(_), Outcome::Done) => JobState::WritingSupportingFiles,
        (JobState::WritingDockerfile(_), Outcome::Failed(c)) => JobState::Failed(
            BuildError::WriteDockerfile(c),
        ),
        (JobState::WritingSupportingFiles, Outcome::Done) => JobState::Finished,
        (JobState::WritingSupportingFiles, Outcome::Failed(c)) => JobState::Failed(
            BuildError::SupportingFiles(c),
        ),
        (s, _) => s,
    }
}

/// Writing a Dockerfile into an output directory, one step at a time: the
/// caller performs each action and reports its outcome.
#[derive(Debug)]
pub struct DockerfileJob {
    /// Where assets are written.
    pub output: OutputDir,
    /// The path of the Dockerfile inside the assets directory.
    pub dockerfile_path: String,
    /// How far the job has got.
    pub state: JobState,
}

/// The name of the generated Dockerfile.
pub open spec fn dockerfile_name() -> Seq<char> {
    "Dockerfile"@
}

impl DockerfileJob {
    /// The Dockerfile lies in the assets directory, which lies in the root.
    pub open spec fn wf(&self) -> bool {
        &&& self.output.wf()
        &&& self.dockerfile_path@ == path_join(self.output.asset_root@, dockerfile_name())
    }

    /// The same job in another state.
    pub open spec fn with_state(self, state: JobState) -> DockerfileJob {
        DockerfileJob { output: self.output, dockerfile_path: self.dockerfile_path, state }
    }

    /// The action that the job waits on in its present state.
    pub open spec fn pending(self) -> Action {
        match self.state {
            JobState::EnsuringOutput => Action::EnsureOutputExists {
                root: self.output.root,
                asset_root: self.output.asset_root,
            },
            JobState::Generating => Action::GenerateDockerfile,
            JobState::CreatingDockerfile(_) => Action::CreateFile { path: self.dockerfile_path },
            JobState::WritingDockerfile(text) => Action::WriteFile {
                path: self.dockerfile_path,
                contents: text,
            },
            JobState::WritingSupportingFiles => Action::WriteSupportingFiles,
            JobState::Finished => Action::Finish,
            JobState::Failed(e) => Action::Fail(e),
        }
    }

    /// A fresh job writing into `output`.
    pub fn new(output: OutputDir) -> (job: DockerfileJob)
        requires
            output.wf(),
        ensures
            job.output == output,
            job.state is EnsuringOutput,
            job.wf(),
    {
        proof {
            reveal_strlit("Dockerfile");
        }
        let dockerfile_path = output.get_absolute_path("Dockerfile");
        DockerfileJob { output, dockerfile_path, state: JobState::EnsuringOutput }
    }

    /// The action that the job waits on.
    pub fn pending_action(&self) -> (action: Action)
        ensures
            action == self.pending(),
    {
        match &self.state {
            JobState::EnsuringOutput => Action::EnsureOutputExists {
                root: self.output.root.clone(),
                asset_root: self.output.asset_root.clone(),
            },
            JobState::Generating => Action::GenerateDockerfile,
            JobState::CreatingDockerfile(_) => Action::CreateFile {
                path: self.dockerfile_path.clone(),
            },
            JobState::WritingDockerfile(text) => Action::WriteFile {
                path: self.dockerfile_path.clone(),
                contents: text.clone(),
            },
            JobState::WritingSupportingFiles => Action::WriteSupportingFiles,
            JobState::Finished => Action::Finish,
            JobState::Failed(e) => Action::Fail(e.clone()),
        }
    }

    /// Takes in what the pending step reported and returns the next action.
    pub fn advance(&mut self, outcome: Outcome) -> (action: Action)
        ensures
            final(self).output == old(self).output,
            final(self).dockerfile_path == old(self).dockerfile_path,
            final(self).state == next_state(old(self).state, outcome),
            action == final(self).pending(),
            old(self).wf() ==> final(self).wf(),
    {
        let next = match (&self.state, outcome) {
            (JobState::EnsuringOutput, Outcome::Done) => JobState::Generating,
            (JobState::EnsuringOutput, Outcome::Failed(c)) => JobState::Failed(
                BuildError::OutputDirUnavailable(c),
            ),
            (JobState::Generating, Outcome::Generated(text)) => JobState::CreatingDockerfile(text),
            (JobState::Generating, Outcome::Failed(c)) => JobState::Failed(BuildError::Generate(c)),
            (JobState::CreatingDockerfile(text), Outcome::Done) => JobState::WritingDockerfile(
                text.clone(),
            ),
            (JobState::CreatingDockerfile(_), Outcome::Failed(c)) => JobState::Failed(
                BuildError::CreateDockerfile(c),
            ),
            (JobState::WritingDockerfile(_), Outcome::Done) => JobState::WritingSupportingFiles,
            (JobState::WritingDockerfile(_), Outcome::Failed(c)) => JobState::Failed(
                BuildError::WriteDockerfile(c),
            ),
            (JobState::WritingSupportingFiles, Outcome::Done) => JobState::Finished,
            (JobState::WritingSupportingFiles, Outcome::Failed(c)) => JobState::Failed(
                BuildError::SupportingFiles(c),
            ),
            (JobState::EnsuringOutput, _) => JobState::EnsuringOutput,
            (JobState::Generating, _) => JobState::Generating,
            (JobState::CreatingDockerfile(text), _) => JobState::CreatingDockerfile(text.clone()),
            (JobState::WritingDockerfile(text), _) => JobState::WritingDockerfile(text.clone()),
            (JobState::WritingSupportingFiles, _) => JobState::WritingSupportingFiles,
            (JobState::Finished, _) => JobState::Finished,
            (JobState::Failed(e), _) => JobState::Failed(e.clone()),
        };
        self.state = next;
        self.pending_action()
    }
}

} // verus!

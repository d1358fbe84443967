use vstd::prelude::*;

verus! {

/// Why writing a Dockerfile stopped. Each variant after the first carries
/// the message of the failure reported by the step it names.
#[derive(Debug)]
pub enum BuildError {
    /// The options name no output directory.
    MissingOutputDir,
    /// The output directory could not be made ready.
    OutputDirUnavailable(String),
    /// The build plan could not be turned into a Dockerfile.
    Generate(String),
    /// The Dockerfile could not be created.
    CreateDockerfile(String),
    /// The Dockerfile's contents could not be written.
    WriteDockerfile(String),
    /// The supporting files could not be written.
    SupportingFiles(String),
}

/// The context lines, outermost first, under which an error is reported.
pub open spec fn spec_contexts(e: BuildError) -> Seq<Seq<char>> {
    match e {
        BuildError::MissingOutputDir => seq![],
        BuildError::OutputDirUnavailable(_) => seq![],
        BuildError::Generate(_) => seq!["Generating Dockerfile for plan"@],
        BuildError::CreateDockerfile(_) => seq!["Writing Dockerfile"@, "Creating Dockerfile file"@],
        BuildError::WriteDockerfile(_) => seq!["Writing Dockerfile"@, "Write Dockerfile"@],
        BuildError::SupportingFiles(_) => seq!["Writing supporting files"@],
    }
}

impl Clone for BuildError {
    fn clone(&self) -> (copy: Self)
        ensures
            copy == *self,
    {
        match self {
            BuildError::MissingOutputDir => BuildError::MissingOutputDir,
            BuildError::OutputDirUnavailable(c) => BuildError::OutputDirUnavailable(c.clone()),
            BuildError::Generate(c) => BuildError::Generate(c.clone()),
            BuildError::CreateDockerfile(c) => BuildError::CreateDockerfile(c.clone()),
            BuildError::WriteDockerfile(c) => BuildError::WriteDockerfile(c.clone()),
            BuildError::SupportingFiles(c) => BuildError::SupportingFiles(c.clone()),
        }
    }
}

impl BuildError {
    /// The context lines, outermost first, that wrap the underlying failure.
    pub fn contexts(&self) -> (lines: Vec<&'static str>)
        ensures
            lines@.map_values(|l: &str| l@) == spec_contexts(*self),
    {
        let lines: Vec<&'static str> = match self {
            BuildError::MissingOutputDir => vec![],
            BuildError::OutputDirUnavailable(_) => vec![],
            BuildError::Generate(_) => vec!["Generating Dockerfile for plan"],
            BuildError::CreateDockerfile(_) => vec!["Writing Dockerfile", "Creating Dockerfile file"],
            BuildError::WriteDockerfile(_) => vec!["Writing Dockerfile", "Write Dockerfile"],
            BuildError::SupportingFiles(_) => vec!["Writing supporting files"],
        };
        assert(lines@.map_values(|l: &str| l@) =~= spec_contexts(*self));
        lines
    }

    /// The message of the underlying failure.
    pub fn cause(&self) -> (message: String)
        ensures
            match *self {
                BuildError::MissingOutputDir => message@ == missing_output_dir_message(),
                BuildError::OutputDirUnavailable(c) => message == c,
                BuildError::Generate(c) => message == c,
                BuildError::CreateDockerfile(c) => message == c,
                BuildError::WriteDockerfile(c) => message == c,
                BuildError::SupportingFiles(c) => message == c,
            },
    {
        match self {
            BuildError::MissingOutputDir => {
                "out_dir is required: temps-nixpacks only writes Dockerfiles to a provided output directory".to_owned()
            },
            BuildError::OutputDirUnavailable(c) => c.clone(),
            BuildError::Generate(c) => c.clone(),
            BuildError::CreateDockerfile(c) => c.clone(),
            BuildError::WriteDockerfile(c) => c.clone(),
            BuildError::SupportingFiles(c) => c.clone(),
        }
    }
}

/// The message reported when no output directory is given.
pub open spec fn missing_output_dir_message() -> Seq<char> {
    "out_dir is required: temps-nixpacks only writes Dockerfiles to a provided output directory"@
}

} // verus!

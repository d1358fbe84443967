use vstd::prelude::*;

use crate::dockerfile_job::{dockerfile_name, DockerfileJob};
use crate::error::BuildError;
use crate::options::DockerBuilderOptions;
use crate::output_dir::{assets_dir_name, path_join, OutputDir};

verus! {

/// Writes a Dockerfile (and supporting files) for a build plan.
///
/// It never runs `docker build`: images are built by the caller after it
/// reads the generated Dockerfile.
pub struct DockerImageBuilder {
    options: DockerBuilderOptions,
}

/// Where generated assets go: the output directory named by the options,
/// which must be given.
pub fn get_output_dir(options: &DockerBuilderOptions) -> (dir: Result<OutputDir, BuildError>)
    ensures
        match options.out_dir {
            Some(root) => dir matches Ok(d) && d.root == root && d.wf(),
            None => dir matches Err(BuildError::MissingOutputDir),
        },
{
    if let Some(value) = &options.out_dir {
        Ok(OutputDir::new(value.clone()))
    } else {
        Err(BuildError::MissingOutputDir)
    }
}

impl DockerImageBuilder {
    /// The options this builder was made with.
    pub closed spec fn spec_options(&self) -> DockerBuilderOptions {
        self.options
    }

    /// A builder that writes with `options`.
    pub fn new(options: DockerBuilderOptions) -> (builder: DockerImageBuilder)
        ensures
            builder.spec_options() == options,
    {
        DockerImageBuilder { options }
    }

    /// The options this builder was made with.
    pub fn options(&self) -> (options: &DockerBuilderOptions)
        ensures
            *options == self.spec_options(),
    {
        &self.options
    }

    /// Starts writing a Dockerfile under `out_dir/.nixpacks/`: the job that
    /// is returned asks, step by step, for the output directories, the
    /// generated text, the Dockerfile and the supporting files.
    pub fn write_dockerfile(&self) -> (job: Result<DockerfileJob, BuildError>)
        ensures
            match self.spec_options().out_dir {
                Some(root) => job matches Ok(j) && {
                    &&& j.output.root == root
                    &&& j.output.asset_root@ == path_join(root@, assets_dir_name())
                    &&& j.dockerfile_path@ == path_join(
                        path_join(root@, assets_dir_name()),
                        dockerfile_name(),
                    )
                    &&& j.state is EnsuringOutput
                    &&& j.wf()
                },
                None => job matches Err(BuildError::MissingOutputDir),
            },
    {
        let output = get_output_dir(&self.options)?;
        Ok(DockerfileJob::new(output))
    }
}

} // verus!

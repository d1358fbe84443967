use vstd::prelude::*;

verus! {

/// Options for generating a Dockerfile.
///
/// Only Dockerfiles are written (no image is ever built), so no flags for
/// running `docker build` are carried.
#[derive(Clone, Debug)]
pub struct DockerBuilderOptions {
    /// Directory where `.nixpacks/Dockerfile` and supporting files are written.
    pub out_dir: Option<String>,
    /// Optional BuildKit cache key prefix for phase `RUN --mount=type=cache`.
    pub cache_key: Option<String>,
    /// Disable BuildKit cache mounts in generated Dockerfiles.
    pub no_cache: bool,
}

impl Default for DockerBuilderOptions {
    fn default() -> (options: Self)
        ensures
            options.out_dir is None,
            options.cache_key is None,
            !options.no_cache,
    {
        DockerBuilderOptions { out_dir: None, cache_key: None, no_cache: false }
    }
}

} // verus!

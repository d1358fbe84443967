# temps-nixpacks (verified core)

Writes a Dockerfile for a build plan under `out_dir/.nixpacks/`.

- `src/` is the verified library: the options, the output layout
  (`output_dir`), the ordered steps of writing a Dockerfile as a state
  machine (`dockerfile_job`), the builder that starts them
  (`docker_image_builder`), the error type, and the laws about runs (`laws`).
- `app/` performs the filesystem work that the library asks for and reports
  errors through `anyhow`.

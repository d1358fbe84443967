//! Dockerfile writing for build plans: the output layout and the ordered
//! steps that put a generated Dockerfile on disk.

pub mod docker_image_builder;
pub mod dockerfile_job;
pub mod error;
pub mod laws;
pub mod options;
pub mod output_dir;

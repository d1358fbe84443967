use temps_nixpacks::docker_image_builder::{get_output_dir, DockerImageBuilder};
use temps_nixpacks::dockerfile_job::{Action, DockerfileJob, JobState, Outcome};
use temps_nixpacks::error::BuildError;
use temps_nixpacks::options::DockerBuilderOptions;
use temps_nixpacks::output_dir::{join_path, OutputDir};

fn options_with(out_dir: Option<&str>) -> DockerBuilderOptions {
    DockerBuilderOptions {
        out_dir: out_dir.map(|d| d.to_string()),
        cache_key: None,
        no_cache: false,
    }
}

fn fresh_job(out_dir: &str) -> DockerfileJob {
    DockerImageBuilder::new(options_with(Some(out_dir)))
        .write_dockerfile()
        .expect("an output directory is given")
}

#[test]
fn default_options_name_no_output_directory() {
    let options = DockerBuilderOptions::default();
    assert!(options.out_dir.is_none());
    assert!(options.cache_key.is_none());
    assert!(!options.no_cache);
}

#[test]
fn builder_keeps_its_options() {
    let options = DockerBuilderOptions {
        out_dir: Some("/srv/app".to_string()),
        cache_key: Some("key".to_string()),
        no_cache: true,
    };
    let builder = DockerImageBuilder::new(options);
    assert_eq!(builder.options().out_dir.as_deref(), Some("/srv/app"));
    assert_eq!(builder.options().cache_key.as_deref(), Some("key"));
    assert!(builder.options().no_cache);
}

#[test]
fn join_path_inserts_one_separator() {
    assert_eq!(join_path("/tmp/out", ".nixpacks"), "/tmp/out/.nixpacks");
    assert_eq!(join_path("/tmp/out/", ".nixpacks"), "/tmp/out/.nixpacks");
    assert_eq!(join_path("", ".nixpacks"), ".nixpacks");
    assert_eq!(join_path("out", "Dockerfile"), "out/Dockerfile");
}

#[test]
fn output_dir_places_assets_below_root() {
    let dir = OutputDir::new("/tmp/out".to_string());
    assert_eq!(dir.root, "/tmp/out");
    assert_eq!(dir.asset_root, "/tmp/out/.nixpacks");
    assert_eq!(dir.get_absolute_path("Dockerfile"), "/tmp/out/.nixpacks/Dockerfile");
}

#[test]
fn missing_out_dir_is_refused() {
    let err = get_output_dir(&options_with(None)).unwrap_err();
    assert!(matches!(err, BuildError::MissingOutputDir));
    assert_eq!(
        err.cause(),
        "out_dir is required: temps-nixpacks only writes Dockerfiles to a provided output directory"
    );
    assert!(err.contexts().is_empty());

    let err = DockerImageBuilder::new(DockerBuilderOptions::default())
        .write_dockerfile()
        .unwrap_err();
    assert!(matches!(err, BuildError::MissingOutputDir));
}

#[test]
fn given_out_dir_is_used() {
    let dir = get_output_dir(&options_with(Some("/work"))).unwrap();
    assert_eq!(dir.root, "/work");
    assert_eq!(dir.asset_root, "/work/.nixpacks");
}

#[test]
fn fresh_job_first_asks_for_the_output_directories() {
    let job = fresh_job("/work/");
    assert_eq!(job.dockerfile_path, "/work/.nixpacks/Dockerfile");
    assert!(matches!(job.state, JobState::EnsuringOutput));
    match job.pending_action() {
        Action::EnsureOutputExists { root, asset_root } => {
            assert_eq!(root, "/work/");
            assert_eq!(asset_root, "/work/.nixpacks");
        }
        other => panic!("unexpected first action {:?}", other),
    }
}

#[test]
fn successful_run_writes_the_generated_text_then_supporting_files() {
    let mut job = fresh_job("/work");
    assert!(matches!(job.advance(Outcome::Done), Action::GenerateDockerfile));
    match job.advance(Outcome::Generated("FROM alpine\n".to_string())) {
        Action::CreateFile { path } => assert_eq!(path, "/work/.nixpacks/Dockerfile"),
        other => panic!("unexpected action {:?}", other),
    }
    match job.advance(Outcome::Done) {
        Action::WriteFile { path, contents } => {
            assert_eq!(path, "/work/.nixpacks/Dockerfile");
            assert_eq!(contents, "FROM alpine\n");
        }
        other => panic!("unexpected action {:?}", other),
    }
    assert!(matches!(job.advance(Outcome::Done), Action::WriteSupportingFiles));
    assert!(matches!(job.advance(Outcome::Done), Action::Finish));
    assert!(matches!(job.state, JobState::Finished));
}

fn failure_at(step: usize) -> BuildError {
    let mut job = fresh_job("/work");
    let successes = [
        Outcome::Done,
        Outcome::Generated("FROM scratch\n".to_string()),
        Outcome::Done,
        Outcome::Done,
    ];
    for outcome in successes.into_iter().take(step) {
        job.advance(outcome);
    }
    match job.advance(Outcome::Failed("disk full".to_string())) {
        Action::Fail(e) => e,
        other => panic!("expected a failure, got {:?}", other),
    }
}

#[test]
fn each_failure_names_its_step() {
    let e = failure_at(0);
    assert!(matches!(e, BuildError::OutputDirUnavailable(_)));
    assert!(e.contexts().is_empty());
    assert_eq!(e.cause(), "disk full");

    let e = failure_at(1);
    assert!(matches!(e, BuildError::Generate(_)));
    assert_eq!(e.contexts(), vec!["Generating Dockerfile for plan"]);

    let e = failure_at(2);
    assert!(matches!(e, BuildError::CreateDockerfile(_)));
    assert_eq!(e.contexts(), vec!["Writing Dockerfile", "Creating Dockerfile file"]);

    let e = failure_at(3);
    assert!(matches!(e, BuildError::WriteDockerfile(_)));
    assert_eq!(e.contexts(), vec!["Writing Dockerfile", "Write Dockerfile"]);

    let e = failure_at(4);
    assert!(matches!(e, BuildError::SupportingFiles(_)));
    assert_eq!(e.contexts(), vec!["Writing supporting files"]);
    assert_eq!(e.cause(), "disk full");
}

#[test]
fn failure_is_final() {
    let mut job = fresh_job("/work");
    job.advance(Outcome::Done);
    assert!(matches!(
        job.advance(Outcome::Failed("no plan".to_string())),
        Action::Fail(BuildError::Generate(_))
    ));
    assert!(matches!(job.advance(Outcome::Done), Action::Fail(BuildError::Generate(_))));
    assert!(matches!(
        job.advance(Outcome::Generated("FROM alpine\n".to_string())),
        Action::Fail(BuildError::Generate(_))
    ));
    assert!(matches!(job.state, JobState::Failed(_)));
}

#[test]
fn finished_job_stays_finished() {
    let mut job = fresh_job("/work");
    job.advance(Outcome::Done);
    job.advance(Outcome::Generated("FROM alpine\n".to_string()));
    job.advance(Outcome::Done);
    job.advance(Outcome::Done);
    job.advance(Outcome::Done);
    assert!(matches!(job.advance(Outcome::Failed("late".to_string())), Action::Finish));
    assert!(matches!(job.state, JobState::Finished));
}

#[test]
fn unrelated_outcome_repeats_the_pending_action() {
    let mut job = fresh_job("/work");
    assert!(matches!(
        job.advance(Outcome::Generated("FROM alpine\n".to_string())),
        Action::EnsureOutputExists { .. }
    ));
    assert!(matches!(job.advance(Outcome::Done), Action::GenerateDockerfile));
    assert!(matches!(job.advance(Outcome::Done), Action::GenerateDockerfile));
    assert!(matches!(job.state, JobState::Generating));
}

#[test]
fn every_requested_path_lies_in_the_output_directory() {
    let mut job = fresh_job("relative/out");
    let mut paths = Vec::new();
    let outcomes = vec![
        Outcome::Done,
        Outcome::Generated("FROM alpine\n".to_string()),
        Outcome::Done,
        Outcome::Done,
    ];
    if let Action::EnsureOutputExists { asset_root, .. } = job.pending_action() {
        paths.push(asset_root);
    }
    for outcome in outcomes {
        match job.advance(outcome) {
            Action::CreateFile { path } => paths.push(path),
            Action::WriteFile { path, .. } => paths.push(path),
            _ => {}
        }
    }
    assert_eq!(
        paths,
        vec![
            "relative/out/.nixpacks".to_string(),
            "relative/out/.nixpacks/Dockerfile".to_string(),
            "relative/out/.nixpacks/Dockerfile".to_string(),
        ]
    );
    assert!(paths.iter().all(|p| p.starts_with("relative/out")));
}

use pipebased::{
    AppDescriptor, CatalogsDescriptor, Daemon, Descriptor, Error, PipeManagerConfig,
    PipeRemoval, PullOutcome, RepositoryManager, ResourceType, UnitProps, build_pipe_manager,
};

fn app(version: u64) -> AppDescriptor {
    AppDescriptor::builder()
        .namespace("dev".to_string())
        .id("timer".to_string())
        .version(version)
        .build()
}

fn catalogs(version: u64) -> CatalogsDescriptor {
    CatalogsDescriptor::builder()
        .namespace("dev".to_string())
        .id("timer".to_string())
        .version(version)
        .build()
}

fn daemon() -> Daemon {
    let repository_manager = RepositoryManager::builder()
        .app_directory("/roots/app".to_string())
        .catalogs_directory("/roots/catalogs".to_string())
        .build();
    let pipe_manager = build_pipe_manager(PipeManagerConfig { workspace: "/workspace".to_string() });
    Daemon::builder().repository_manager(repository_manager).pipe_manager(pipe_manager).build()
}

fn request(id: &str) -> Descriptor {
    Descriptor::builder()
        .id(id.to_string())
        .description("pipebase timer app".to_string())
        .user("pipebase".to_string())
        .group("pipebase".to_string())
        .env("PIPEBASED_LOG_FORMATTER".to_string(), "json".to_string())
        .env("RUST_LOG".to_string(), "info".to_string())
        .app_descriptor(app(0))
        .catalogs_descriptor(catalogs(0))
        .build()
}

fn props(load: &str, active: &str, sub: &str) -> UnitProps {
    UnitProps {
        load_state: load.to_string(),
        active_state: active.to_string(),
        sub_state: sub.to_string(),
    }
}

#[test]
fn fresh_daemon_lists_nothing() {
    let d = daemon();
    assert_eq!(d.list_app_register().len(), 0);
    assert_eq!(d.list_catalogs_register().len(), 0);
    assert_eq!(d.list_pipe_register().len(), 0);
    assert_eq!(d.list_pipe_status(&Vec::new()).len(), 0);
}

#[test]
fn pull_app_then_list_shows_one_entry() {
    let mut d = daemon();
    match d.pull_app(&app(0)) {
        PullOutcome::Registered { artifact_path } => {
            assert_eq!(artifact_path, "/roots/app/dev/timer/0/app");
        },
        PullOutcome::AlreadyRegistered => panic!("fresh pull must register"),
    }
    let listed = d.list_app_register();
    assert_eq!(listed.len(), 1);
    assert!(listed[0] == app(0));
}

#[test]
fn pull_catalogs_then_list_shows_one_entry() {
    let mut d = daemon();
    match d.pull_catalogs(&catalogs(0)) {
        PullOutcome::Registered { artifact_path } => {
            assert_eq!(artifact_path, "/roots/catalogs/dev/timer/0/catalogs");
        },
        PullOutcome::AlreadyRegistered => panic!("fresh pull must register"),
    }
    assert_eq!(d.list_catalogs_register().len(), 1);
}

#[test]
fn create_pipe_requires_the_app() {
    let mut d = daemon();
    let e = d.create_pipe(request("pipebase.dev.timer"), false).expect_err("no app pulled");
    assert!(matches!(e, Error::Resource { resource, message }
        if resource == ResourceType::App
            && message == "app (namespace = dev, id = timer, version = 0) not found"));
    assert_eq!(d.list_pipe_register().len(), 0);
}

#[test]
fn create_pipe_requires_the_catalogs() {
    let mut d = daemon();
    d.pull_app(&app(0));
    let e = d.create_pipe(request("pipebase.dev.timer"), false).expect_err("no catalogs pulled");
    assert!(matches!(e, Error::Resource { resource, message }
        if resource == ResourceType::Catalogs
            && message == "catalogs (namespace = dev, id = timer, version = 0) not found"));
    assert_eq!(d.list_pipe_register().len(), 0);
}

#[test]
fn create_pipe_resolves_paths_and_installs() {
    let mut d = daemon();
    d.pull_app(&app(0));
    d.pull_catalogs(&catalogs(0));
    let actions = d.create_pipe(request("pipebase.dev.timer"), false).expect("both registered");
    assert_eq!(actions.working_directory, "/workspace/pipebase.dev.timer");
    assert_eq!(actions.catalogs_link_path, "/workspace/pipebase.dev.timer/catalogs");
    assert_eq!(actions.unit_name, "pipebase.dev.timer.service");
    let expected_unit = "[Unit]\nDescription=pipebase timer app\n\n\
                         [Service]\nExecStart=/roots/app/dev/timer/0/app\n\
                         WorkingDirectory=/workspace/pipebase.dev.timer\n\
                         User=pipebase\nGroup=pipebase\n\
                         Environment=PIPEBASED_LOG_FORMATTER=json\n\
                         Environment=RUST_LOG=info\n";
    assert_eq!(actions.unit_file, expected_unit);
    assert_eq!(d.list_pipe_register(), vec!["pipebase.dev.timer".to_string()]);
}

#[test]
fn create_pipe_applies_defaults() {
    let mut d = daemon();
    d.pull_app(&app(0));
    d.pull_catalogs(&catalogs(0));
    let bare = Descriptor::builder()
        .id("p".to_string())
        .app_descriptor(app(0))
        .catalogs_descriptor(catalogs(0))
        .build();
    let actions = d.create_pipe(bare, false).expect("both registered");
    assert!(actions.unit_file.contains("Description=a pipebase application\n"));
    assert!(actions.unit_file.contains("User=pipebase\n"));
    assert!(actions.unit_file.contains("Group=pipebase\n"));
}

#[test]
fn create_pipe_twice_conflicts() {
    let mut d = daemon();
    d.pull_app(&app(0));
    d.pull_catalogs(&catalogs(0));
    d.create_pipe(request("p"), false).expect("first create");
    let e = d.create_pipe(request("p"), false).expect_err("second create");
    assert!(matches!(e, Error::Pipe { message, .. } if message == "conflict pipe id 'p'"));
}

#[test]
fn pipe_lifecycle_runs_to_removal() {
    let mut d = daemon();
    d.pull_app(&app(0));
    d.pull_catalogs(&catalogs(0));
    let id = "pipebase.dev.timer";
    d.create_pipe(request(id), false).expect("create");
    assert_eq!(d.list_pipe_register(), vec![id.to_string()]);

    let start = d.start_pipe(id).expect("start");
    assert_eq!(start.unit_name, "pipebase.dev.timer.service");
    assert_eq!(start.mode, "replace");

    let running = d.pipe_status(id, &props("loaded", "active", "running")).expect("status");
    assert_eq!(running.load_state.label(), "loaded");
    assert_eq!(running.active_state.label(), "active");
    assert_eq!(running.sub_state.label(), "running");

    let e = d.remove_pipe(id, &props("loaded", "active", "running")).expect_err("still running");
    assert!(matches!(e, Error::Pipe { message, .. }
        if message == "pipe 'pipebase.dev.timer' is not inactive"));

    let stop = d.stop_pipe(id).expect("stop");
    assert_eq!(stop.mode, "replace");

    let removal = d.remove_pipe(id, &props("loaded", "inactive", "dead")).expect("dead pipe");
    assert!(matches!(removal, PipeRemoval::Removed { unit_name }
        if unit_name == "pipebase.dev.timer.service"));
    assert_eq!(d.list_pipe_register().len(), 0);
}

#[test]
fn list_pipe_status_skips_unreadable_units() {
    let mut d = daemon();
    d.pull_app(&app(0));
    d.pull_catalogs(&catalogs(0));
    d.create_pipe(request("a"), false).expect("create a");
    d.create_pipe(request("b"), false).expect("create b");
    d.create_pipe(request("c"), false).expect("create c");
    let observations = vec![
        Some(props("loaded", "inactive", "dead")),
        None,
        Some(props("loaded", "active", "running")),
    ];
    let states = d.list_pipe_status(&observations);
    assert_eq!(states.len(), 2);
    assert_eq!(states[0].id, "a");
    assert_eq!(states[0].active_state.label(), "inactive");
    assert_eq!(states[0].sub_state.label(), "dead");
    assert_eq!(states[1].id, "c");
    assert_eq!(states[1].active_state.label(), "active");
    assert_eq!(states[1].sub_state.label(), "running");
}

#[test]
fn list_pipe_status_with_no_readable_unit_is_empty() {
    let mut d = daemon();
    d.pull_app(&app(0));
    d.pull_catalogs(&catalogs(0));
    d.create_pipe(request("a"), false).expect("create a");
    let states = d.list_pipe_status(&vec![None]);
    assert_eq!(states.len(), 0);
}

#[test]
fn pull_reregisters_when_only_the_register_entry_is_missing() {
    // The register is authoritative: a pull consults it alone, so a
    // descriptor whose entry is gone is registered afresh, whatever may
    // already sit on disk.
    let mut d = daemon();
    d.pull_app(&app(0));
    d.remove_app(&app(0));
    assert!(matches!(d.pull_app(&app(0)), PullOutcome::Registered { .. }));
    assert_eq!(d.list_app_register().len(), 1);
}

#[test]
fn pull_remove_round_trip_leaves_the_daemon_fresh() {
    let mut d = daemon();
    d.pull_app(&app(0));
    d.pull_catalogs(&catalogs(0));
    d.remove_app(&app(0));
    d.remove_catalogs(&catalogs(0));
    assert_eq!(d.list_app_register().len(), 0);
    assert_eq!(d.list_catalogs_register().len(), 0);
}

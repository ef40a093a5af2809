use pipebased::{
    EnvironmentVariable, Error, PipeActiveStateType, PipeDescriptor, PipeLoadStateType,
    PipeManagerConfig, PipeOperation, PipeRemoval, PipeState, PipeSubStateType,
    PipeUnitNameBuilder, UnitProps, build_pipe_manager, generate_random_id, render_unit_file,
};

fn props(load: &str, active: &str, sub: &str) -> UnitProps {
    UnitProps {
        load_state: load.to_string(),
        active_state: active.to_string(),
        sub_state: sub.to_string(),
    }
}

fn descriptor(id: &str) -> PipeDescriptor {
    PipeDescriptor::builder()
        .id(id.to_string())
        .app_path("/roots/app/dev/timer/0/app".to_string())
        .catalogs_path("/roots/catalogs/dev/timer/0/catalogs".to_string())
        .build()
}

#[test]
fn load_state_labels_round_trip() {
    for label in ["stub", "loaded", "not-found", "error", "merged", "masked", "strange"] {
        assert_eq!(PipeLoadStateType::from_label(label).label(), label);
    }
}

#[test]
fn active_state_labels_round_trip() {
    for label in [
        "active",
        "reloading",
        "inactive",
        "failed",
        "activating",
        "deactivating",
        "strange",
    ] {
        assert_eq!(PipeActiveStateType::from_label(label).label(), label);
    }
}

#[test]
fn sub_state_labels_round_trip() {
    for label in [
        "auto-restart",
        "dead",
        "exited",
        "failed",
        "final-sigterm",
        "final-sigkill",
        "reload",
        "running",
        "start",
        "start-pre",
        "start-post",
        "stop",
        "stop-post",
        "stop-sigabrt",
        "stop-sigterm",
        "stop-sigkill",
        "waiting",
        "strange",
    ] {
        assert_eq!(PipeSubStateType::from_label(label).label(), label);
    }
}

#[test]
fn known_labels_parse_to_named_states() {
    assert!(matches!(PipeLoadStateType::from_label("loaded"), PipeLoadStateType::Loaded));
    assert!(matches!(PipeActiveStateType::from_label("inactive"), PipeActiveStateType::Inactive));
    assert!(matches!(PipeSubStateType::from_label("dead"), PipeSubStateType::Dead));
    assert!(matches!(PipeSubStateType::from_label("stop"), PipeSubStateType::Stop));
    assert!(matches!(
        PipeLoadStateType::from_label("unheard-of"),
        PipeLoadStateType::Other(o) if o == "unheard-of"
    ));
}

#[test]
fn inactive_and_dead_checks() {
    let state = PipeState {
        id: "p".to_string(),
        load_state: PipeLoadStateType::Loaded,
        active_state: PipeActiveStateType::Inactive,
        sub_state: PipeSubStateType::Dead,
    };
    assert!(state.is_inactive());
    assert!(state.is_dead());
    let busy = PipeState {
        id: "p".to_string(),
        load_state: PipeLoadStateType::Loaded,
        active_state: PipeActiveStateType::Active,
        sub_state: PipeSubStateType::Running,
    };
    assert!(!busy.is_inactive());
    assert!(!busy.is_dead());
}

#[test]
fn unit_name_appends_service_suffix() {
    let name = PipeUnitNameBuilder::default().id("pipebase.dev.timer").build();
    assert_eq!(name, "pipebase.dev.timer.service");
}

#[test]
fn unit_file_renders_all_sections() {
    let desc = PipeDescriptor::builder()
        .id("pipebase.dev.timer".to_string())
        .description("pipebase timer app".to_string())
        .user("pipebase".to_string())
        .group("pipebase".to_string())
        .env(EnvironmentVariable {
            key: "PIPEBASED_LOG_FORMATTER".to_string(),
            value: "json".to_string(),
        })
        .env(EnvironmentVariable { key: "RUST_LOG".to_string(), value: "info".to_string() })
        .app_path("/roots/app/dev/timer/0/app".to_string())
        .catalogs_path("/roots/catalogs/dev/timer/0/catalogs".to_string())
        .build();
    let text = render_unit_file(&desc, "/workspace/pipebase.dev.timer");
    let expected = "[Unit]\nDescription=pipebase timer app\n\n\
                    [Service]\nExecStart=/roots/app/dev/timer/0/app\n\
                    WorkingDirectory=/workspace/pipebase.dev.timer\n\
                    User=pipebase\nGroup=pipebase\n\
                    Environment=PIPEBASED_LOG_FORMATTER=json\n\
                    Environment=RUST_LOG=info\n";
    assert_eq!(text, expected);
}

#[test]
fn unit_file_defaults_apply() {
    let desc = descriptor("p");
    let text = render_unit_file(&desc, "/w/p");
    assert!(text.contains("Description=a pipebase application\n"));
    assert!(text.contains("User=pipebase\n"));
    assert!(text.contains("Group=pipebase\n"));
    assert!(!text.contains("Environment="));
}

#[test]
fn create_names_every_action() {
    let mut pm = build_pipe_manager(PipeManagerConfig { workspace: "/workspace".to_string() });
    let desc = descriptor("pipebase.dev.timer");
    let actions = pm.create(&desc, false).expect("fresh create");
    assert_eq!(actions.working_directory, "/workspace/pipebase.dev.timer");
    assert_eq!(actions.catalogs_path, "/roots/catalogs/dev/timer/0/catalogs");
    assert_eq!(actions.catalogs_link_path, "/workspace/pipebase.dev.timer/catalogs");
    assert_eq!(actions.user, "pipebase");
    assert_eq!(actions.group, "pipebase");
    assert_eq!(actions.unit_name, "pipebase.dev.timer.service");
    assert_eq!(actions.unit_file, render_unit_file(&desc, "/workspace/pipebase.dev.timer"));
    assert_eq!(pm.list_pipe_register(), vec!["pipebase.dev.timer".to_string()]);
}

#[test]
fn create_conflicts_on_registered_id() {
    let mut pm = build_pipe_manager(PipeManagerConfig { workspace: "/w".to_string() });
    pm.create(&descriptor("p"), false).expect("fresh create");
    let e = pm.create(&descriptor("p"), false).expect_err("duplicate id");
    assert!(matches!(e, Error::Pipe { operation, message }
        if operation == PipeOperation::Create && message == "conflict pipe id 'p'"));
}

#[test]
fn create_conflicts_on_known_unit() {
    let mut pm = build_pipe_manager(PipeManagerConfig { workspace: "/w".to_string() });
    let e = pm.create(&descriptor("p"), true).expect_err("unit already known");
    assert!(matches!(e, Error::Pipe { operation, message }
        if operation == PipeOperation::Create
            && message == "invalid pipe unit name given id 'p'"));
    assert_eq!(pm.list_pipe_register().len(), 0);
}

#[test]
fn start_and_stop_use_replace_mode() {
    let mut pm = build_pipe_manager(PipeManagerConfig { workspace: "/w".to_string() });
    pm.create(&descriptor("p"), false).expect("fresh create");
    let start = pm.start("p").expect("registered pipe starts");
    assert_eq!(start.unit_name, "p.service");
    assert_eq!(start.mode, "replace");
    let stop = pm.stop("p").expect("registered pipe stops");
    assert_eq!(stop.unit_name, "p.service");
    assert_eq!(stop.mode, "replace");
}

#[test]
fn lifecycle_requires_registration() {
    let mut pm = build_pipe_manager(PipeManagerConfig { workspace: "/w".to_string() });
    let e = pm.start("ghost").expect_err("unregistered start");
    assert!(matches!(e, Error::Pipe { operation, message }
        if operation == PipeOperation::Start && message == "pipe 'ghost' not registered"));
    let e = pm.stop("ghost").expect_err("unregistered stop");
    assert!(matches!(e, Error::Pipe { operation, message }
        if operation == PipeOperation::Stop && message == "pipe 'ghost' not registered"));
    let e = pm.status("ghost", &props("loaded", "inactive", "dead")).expect_err(
        "unregistered status",
    );
    assert!(matches!(e, Error::Pipe { operation, message }
        if operation == PipeOperation::Status && message == "pipe 'ghost' not registered"));
}

#[test]
fn status_maps_reported_labels() {
    let mut pm = build_pipe_manager(PipeManagerConfig { workspace: "/w".to_string() });
    pm.create(&descriptor("p"), false).expect("fresh create");
    let state = pm.status("p", &props("loaded", "active", "running")).expect("registered status");
    assert_eq!(state.id, "p");
    assert_eq!(state.load_state.label(), "loaded");
    assert_eq!(state.active_state.label(), "active");
    assert_eq!(state.sub_state.label(), "running");
}

#[test]
fn remove_requires_inactive_then_dead() {
    let mut pm = build_pipe_manager(PipeManagerConfig { workspace: "/w".to_string() });
    pm.create(&descriptor("p"), false).expect("fresh create");
    let e = pm.remove("p", &props("loaded", "active", "running")).expect_err("still active");
    assert!(matches!(e, Error::Pipe { operation, message }
        if operation == PipeOperation::Remove && message == "pipe 'p' is not inactive"));
    let e = pm.remove("p", &props("loaded", "inactive", "exited")).expect_err("not yet dead");
    assert!(matches!(e, Error::Pipe { operation, message }
        if operation == PipeOperation::Remove && message == "pipe 'p' is not dead"));
    assert_eq!(pm.list_pipe_register().len(), 1);
    let removal = pm.remove("p", &props("loaded", "inactive", "dead")).expect("dead pipe");
    assert!(matches!(removal, PipeRemoval::Removed { unit_name } if unit_name == "p.service"));
    assert_eq!(pm.list_pipe_register().len(), 0);
}

#[test]
fn remove_of_unregistered_pipe_is_a_noop() {
    let mut pm = build_pipe_manager(PipeManagerConfig { workspace: "/w".to_string() });
    let removal = pm.remove("ghost", &props("loaded", "inactive", "dead")).expect("noop");
    assert!(matches!(removal, PipeRemoval::NotRegistered));
}

#[test]
fn loaded_pipe_register_is_what_was_handed_in() {
    let mut pm = build_pipe_manager(PipeManagerConfig { workspace: "/w".to_string() });
    pm.load_pipe_register(vec!["a".to_string(), "b".to_string()]);
    assert_eq!(pm.list_pipe_register(), vec!["a".to_string(), "b".to_string()]);
}

#[test]
fn random_ids_draw_twelve_chars_from_the_charset() {
    for _ in 0..16 {
        let id = generate_random_id();
        assert_eq!(id.chars().count(), 12);
        for c in id.chars() {
            assert!(c.is_ascii_lowercase() || c.is_ascii_digit());
        }
    }
}

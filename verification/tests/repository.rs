use pipebased::{
    AppDescriptor, CatalogsDescriptor, PullOutcome, RemoveOutcome, RepositoryManager,
};

fn app(namespace: &str, id: &str, version: u64) -> AppDescriptor {
    AppDescriptor::builder()
        .namespace(namespace.to_string())
        .id(id.to_string())
        .version(version)
        .build()
}

fn catalogs(namespace: &str, id: &str, version: u64) -> CatalogsDescriptor {
    CatalogsDescriptor::builder()
        .namespace(namespace.to_string())
        .id(id.to_string())
        .version(version)
        .build()
}

fn manager() -> RepositoryManager {
    RepositoryManager::builder()
        .app_directory("/roots/app".to_string())
        .catalogs_directory("/roots/catalogs".to_string())
        .build()
}

#[test]
fn descriptor_builder_sets_fields() {
    let d = app("dev", "timer", 3);
    assert_eq!(d.namespace, "dev");
    assert_eq!(d.id, "timer");
    assert_eq!(d.version, 3);
}

#[test]
fn descriptor_display() {
    let d = app("dev", "timer", 0);
    assert_eq!(d.display_string(), "(namespace = dev, id = timer, version = 0)");
    let c = catalogs("dev", "timer", 12);
    assert_eq!(c.display_string(), "(namespace = dev, id = timer, version = 12)");
}

#[test]
fn descriptor_equality_is_componentwise() {
    assert!(app("dev", "timer", 0) == app("dev", "timer", 0));
    assert!(app("dev", "timer", 0) != app("dev", "timer", 1));
    assert!(app("dev", "timer", 0) != app("dev", "clock", 0));
    assert!(app("dev", "timer", 0) != app("prod", "timer", 0));
}

#[test]
fn fresh_registers_are_empty() {
    let rm = manager();
    assert_eq!(rm.list_app_register().len(), 0);
    assert_eq!(rm.list_catalogs_register().len(), 0);
}

#[test]
fn pull_app_registers_and_names_the_artifact_path() {
    let mut rm = manager();
    let d = app("dev", "timer", 0);
    match rm.pull_app(&d) {
        PullOutcome::Registered { artifact_path } => {
            assert_eq!(artifact_path, "/roots/app/dev/timer/0/app");
        },
        PullOutcome::AlreadyRegistered => panic!("fresh pull must register"),
    }
    let listed = rm.list_app_register();
    assert_eq!(listed.len(), 1);
    assert!(listed[0] == d);
}

#[test]
fn pull_app_twice_is_a_noop() {
    let mut rm = manager();
    let d = app("dev", "timer", 0);
    assert!(matches!(rm.pull_app(&d), PullOutcome::Registered { .. }));
    assert!(matches!(rm.pull_app(&d), PullOutcome::AlreadyRegistered));
    assert_eq!(rm.list_app_register().len(), 1);
}

#[test]
fn check_app_round_trip() {
    let mut rm = manager();
    let d = app("dev", "timer", 0);
    assert!(rm.check_app_registered(&d).is_none());
    rm.pull_app(&d);
    assert_eq!(
        rm.check_app_registered(&d).expect("registered after pull"),
        "/roots/app/dev/timer/0/app"
    );
    match rm.remove_app(&d) {
        RemoveOutcome::Removed { version_directory } => {
            assert_eq!(version_directory, "/roots/app/dev/timer/0");
        },
        RemoveOutcome::NotRegistered => panic!("registered app must be removed"),
    }
    assert!(rm.check_app_registered(&d).is_none());
    assert_eq!(rm.list_app_register().len(), 0);
}

#[test]
fn remove_unregistered_app_is_a_noop() {
    let mut rm = manager();
    let d = app("dev", "timer", 0);
    assert!(matches!(rm.remove_app(&d), RemoveOutcome::NotRegistered));
}

#[test]
fn pull_catalogs_registers_and_names_the_tree_path() {
    let mut rm = manager();
    let d = catalogs("dev", "timer", 0);
    match rm.pull_catalogs(&d) {
        PullOutcome::Registered { artifact_path } => {
            assert_eq!(artifact_path, "/roots/catalogs/dev/timer/0/catalogs");
        },
        PullOutcome::AlreadyRegistered => panic!("fresh pull must register"),
    }
    let listed = rm.list_catalogs_register();
    assert_eq!(listed.len(), 1);
    assert!(listed[0] == d);
    assert_eq!(
        rm.check_catalogs_registered(&d).expect("registered after pull"),
        "/roots/catalogs/dev/timer/0/catalogs"
    );
    match rm.remove_catalogs(&d) {
        RemoveOutcome::Removed { version_directory } => {
            assert_eq!(version_directory, "/roots/catalogs/dev/timer/0");
        },
        RemoveOutcome::NotRegistered => panic!("registered catalogs must be removed"),
    }
    assert!(rm.check_catalogs_registered(&d).is_none());
}

#[test]
fn removal_swaps_in_the_last_entry() {
    let mut rm = manager();
    let a = app("dev", "a", 0);
    let b = app("dev", "b", 0);
    let c = app("dev", "c", 0);
    rm.pull_app(&a);
    rm.pull_app(&b);
    rm.pull_app(&c);
    rm.remove_app(&a);
    let listed = rm.list_app_register();
    assert_eq!(listed.len(), 2);
    assert!(listed[0] == c);
    assert!(listed[1] == b);
}

#[test]
fn removing_the_only_entry_leaves_an_empty_register() {
    let mut rm = manager();
    let d = app("dev", "timer", 0);
    rm.pull_app(&d);
    assert_eq!(rm.list_app_register().len(), 1);
    assert!(matches!(rm.remove_app(&d), RemoveOutcome::Removed { .. }));
    assert_eq!(rm.list_app_register().len(), 0);
}

#[test]
fn loaded_register_is_what_was_handed_in() {
    let mut rm = manager();
    rm.load_app_register(vec![app("dev", "x", 1), app("dev", "y", 2)]);
    let listed = rm.list_app_register();
    assert_eq!(listed.len(), 2);
    assert!(listed[0] == app("dev", "x", 1));
    assert!(listed[1] == app("dev", "y", 2));
    rm.load_catalogs_register(vec![catalogs("dev", "z", 9)]);
    assert_eq!(rm.list_catalogs_register().len(), 1);
}

#[test]
fn registers_do_not_mix_kinds() {
    let mut rm = manager();
    rm.pull_app(&app("dev", "timer", 0));
    assert_eq!(rm.list_catalogs_register().len(), 0);
    assert!(rm.check_catalogs_registered(&catalogs("dev", "timer", 0)).is_none());
}

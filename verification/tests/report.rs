use pipebased::{
    AppDescriptor, CatalogsDescriptor, Error, PipeActiveStateType, PipeLoadStateType, PipeState,
    PipeSubStateType, PrintRecords, io_error, path_error, pipe_error, resource_error,
    PipeOperation, ResourceType,
};

#[test]
fn app_listing_renders_header_and_rows() {
    let records = vec![
        AppDescriptor {
            namespace: "dev".to_string(),
            id: "timer".to_string(),
            version: 0,
        },
        AppDescriptor {
            namespace: "prod".to_string(),
            id: "clock".to_string(),
            version: 12,
        },
    ];
    let lines = records.print_records();
    assert_eq!(lines.len(), 3);
    assert_eq!(lines[0], "Namespace   Id          Version     ");
    assert_eq!(lines[1], "dev         timer       0           ");
    assert_eq!(lines[2], "prod        clock       12          ");
}

#[test]
fn catalogs_listing_renders_header_and_rows() {
    let records = vec![CatalogsDescriptor {
        namespace: "dev".to_string(),
        id: "timer".to_string(),
        version: 3,
    }];
    let lines = records.print_records();
    assert_eq!(lines.len(), 2);
    assert_eq!(lines[0], "Namespace   Id          Version     ");
    assert_eq!(lines[1], "dev         timer       3           ");
}

#[test]
fn pipe_listing_renders_states() {
    let records = vec![PipeState {
        id: "p".to_string(),
        load_state: PipeLoadStateType::Loaded,
        active_state: PipeActiveStateType::Active,
        sub_state: PipeSubStateType::Running,
    }];
    let lines = records.print_records();
    assert_eq!(lines.len(), 2);
    assert_eq!(lines[0], "Id          Load        Active      Sub         ");
    assert_eq!(lines[1], "p           loaded      active      running     ");
}

#[test]
fn wide_columns_are_kept_whole() {
    let records = vec![AppDescriptor {
        namespace: "a-namespace-wider-than-the-column".to_string(),
        id: "i".to_string(),
        version: 1,
    }];
    let lines = records.print_records();
    assert_eq!(lines[1], "a-namespace-wider-than-the-columni           1           ");
}

#[test]
fn user_faults_are_told_from_internal_failures() {
    assert!(pipe_error(PipeOperation::Create, "conflict".to_string()).is_user_fault());
    assert!(resource_error(ResourceType::App, "not found".to_string()).is_user_fault());
    assert!(path_error("to str".to_string(), "bad".to_string()).is_user_fault());
    assert!(!io_error("disk".to_string()).is_user_fault());
    assert!(!Error::ServiceManager { message: "dbus".to_string() }.is_user_fault());
    assert!(!Error::Yaml { message: "parse".to_string() }.is_user_fault());
    assert!(!Error::Link {
        from: "a".to_string(),
        to: "b".to_string(),
        message: "m".to_string()
    }
    .is_user_fault());
}

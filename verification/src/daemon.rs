//! The daemon facade: composes the repository manager and the pipe manager,
//! and enforces the one cross-manager rule — a pipe may only be created if
//! both artifacts it references are registered.

use vstd::prelude::*;
use crate::errors::{Error, PipeOperation, ResourceType, resource_error};
use crate::pipe::{
    CreateActions, EnvironmentVariable, EnvironmentVariableView, PipeActiveStateType,
    PipeDescriptor, PipeDescriptorView, PipeLoadStateType, PipeManager, PipeManagerView,
    PipeRemoval, PipeState, PipeSubStateType, UnitAction, UnitProps, UnitPropsView, env_views,
    id_views, unit_name, unit_file_content,
};
use crate::path::path_join;
use crate::register::{pull_transition, remove_transition, swap_remove_first};
use crate::repository::{
    AppDescriptor, AppDescriptorView, CatalogsDescriptor, CatalogsDescriptorView, PullOutcome,
    RemoveOutcome, RepositoryManager, RepositoryManagerView, app_artifact_path,
    app_version_directory, catalogs_tree_path, catalogs_version_directory,
};

verus! {

/// Everything a client hands in to create a pipe: the id, optional unit
/// metadata (defaults apply where omitted), the environment entries, and the
/// two artifact descriptors to resolve.
#[derive(Debug)]
pub struct Descriptor {
    pub id: String,
    pub description: Option<String>,
    pub user: Option<String>,
    pub group: Option<String>,
    pub envs: Vec<EnvironmentVariable>,
    pub app_descriptor: AppDescriptor,
    pub catalogs_descriptor: CatalogsDescriptor,
}

/// The mathematical content of a `Descriptor`.
pub struct DescriptorView {
    pub id: Seq<char>,
    pub description: Option<Seq<char>>,
    pub user: Option<Seq<char>>,
    pub group: Option<Seq<char>>,
    pub envs: Seq<EnvironmentVariableView>,
    pub app_descriptor: AppDescriptorView,
    pub catalogs_descriptor: CatalogsDescriptorView,
}

impl View for Descriptor {
    type V = DescriptorView;

    open spec fn view(&self) -> DescriptorView {
        DescriptorView {
            id: self.id@,
            description: match self.description {
                Some(d) => Some(d@),
                None => None,
            },
            user: match self.user {
                Some(u) => Some(u@),
                None => None,
            },
            group: match self.group {
                Some(g) => Some(g@),
                None => None,
            },
            envs: env_views(self.envs@),
            app_descriptor: self.app_descriptor@,
            catalogs_descriptor: self.catalogs_descriptor@,
        }
    }
}

impl Descriptor {
    pub fn builder() -> (r: DescriptorBuilder)
        ensures
            r.id is None,
            r.description is None,
            r.user is None,
            r.group is None,
            r.envs@ == Seq::<EnvironmentVariable>::empty(),
            r.app_descriptor is None,
            r.catalogs_descriptor is None,
    {
        DescriptorBuilder::new()
    }
}

pub struct DescriptorBuilder {
    pub id: Option<String>,
    pub description: Option<String>,
    pub user: Option<String>,
    pub group: Option<String>,
    pub envs: Vec<EnvironmentVariable>,
    pub app_descriptor: Option<AppDescriptor>,
    pub catalogs_descriptor: Option<CatalogsDescriptor>,
}

impl DescriptorBuilder {
    pub fn new() -> (r: Self)
        ensures
            r.id is None,
            r.description is None,
            r.user is None,
            r.group is None,
            r.envs@ == Seq::<EnvironmentVariable>::empty(),
            r.app_descriptor is None,
            r.catalogs_descriptor is None,
    {
        let r = DescriptorBuilder {
            id: None,
            description: None,
            user: None,
            group: None,
            envs: Vec::new(),
            app_descriptor: None,
            catalogs_descriptor: None,
        };
        proof {
            assert(r.envs@ =~= Seq::<EnvironmentVariable>::empty());
        }
        r
    }

    pub fn id(self, id: String) -> (r: Self)
        ensures
            r == (DescriptorBuilder { id: Some(id), ..self }),
    {
        DescriptorBuilder { id: Some(id), ..self }
    }

    pub fn description(self, description: String) -> (r: Self)
        ensures
            r == (DescriptorBuilder { description: Some(description), ..self }),
    {
        DescriptorBuilder { description: Some(description), ..self }
    }

    pub fn user(self, user: String) -> (r: Self)
        ensures
            r == (DescriptorBuilder { user: Some(user), ..self }),
    {
        DescriptorBuilder { user: Some(user), ..self }
    }

    pub fn group(self, group: String) -> (r: Self)
        ensures
            r == (DescriptorBuilder { group: Some(group), ..self }),
    {
        DescriptorBuilder { group: Some(group), ..self }
    }

    /// Appends one environment entry, keeping insertion order.
    pub fn env(self, key: String, value: String) -> (r: Self)
        ensures
            r.envs@ == self.envs@.push(EnvironmentVariable { key, value }),
            r.id == self.id,
            r.description == self.description,
            r.user == self.user,
            r.group == self.group,
            r.app_descriptor == self.app_descriptor,
            r.catalogs_descriptor == self.catalogs_descriptor,
    {
        let mut envs = self.envs;
        envs.push(EnvironmentVariable { key, value });
        DescriptorBuilder { envs, ..self }
    }

    pub fn app_descriptor(self, desc: AppDescriptor) -> (r: Self)
        ensures
            r == (DescriptorBuilder { app_descriptor: Some(desc), ..self }),
    {
        DescriptorBuilder { app_descriptor: Some(desc), ..self }
    }

    pub fn catalogs_descriptor(self, desc: CatalogsDescriptor) -> (r: Self)
        ensures
            r == (DescriptorBuilder { catalogs_descriptor: Some(desc), ..self }),
    {
        DescriptorBuilder { catalogs_descriptor: Some(desc), ..self }
    }

    pub fn build(self) -> (r: Descriptor)
        requires
            self.id is Some,
            self.app_descriptor is Some,
            self.catalogs_descriptor is Some,
        ensures
            r.id == self.id->Some_0,
            r.description == self.description,
            r.user == self.user,
            r.group == self.group,
            r.envs == self.envs,
            r.app_descriptor == self.app_descriptor->Some_0,
            r.catalogs_descriptor == self.catalogs_descriptor->Some_0,
    {
        let id = self.id.unwrap();
        let app_descriptor = self.app_descriptor.unwrap();
        let catalogs_descriptor = self.catalogs_descriptor.unwrap();
        Descriptor {
            id,
            description: self.description,
            user: self.user,
            group: self.group,
            envs: self.envs,
            app_descriptor,
            catalogs_descriptor,
        }
    }
}

impl Default for DescriptorBuilder {
    fn default() -> (r: Self)
        ensures
            r.id is None,
            r.description is None,
            r.user is None,
            r.group is None,
            r.envs@ == Seq::<EnvironmentVariable>::empty(),
            r.app_descriptor is None,
            r.catalogs_descriptor is None,
    {
        DescriptorBuilder::new()
    }
}

/// The pipe descriptor that a create resolves a client `Descriptor` into:
/// defaults applied where metadata was omitted, and the artifact paths
/// resolved against the repository roots.
pub open spec fn resolved_pipe_descriptor(
    d: DescriptorView,
    app_root: Seq<char>,
    catalogs_root: Seq<char>,
) -> PipeDescriptorView {
    PipeDescriptorView {
        id: d.id,
        description: match d.description {
            Some(x) => x,
            None => "a pipebase application"@,
        },
        user: match d.user {
            Some(x) => x,
            None => "pipebase"@,
        },
        group: match d.group {
            Some(x) => x,
            None => "pipebase"@,
        },
        envs: d.envs,
        app_path: app_artifact_path(app_root, d.app_descriptor),
        catalogs_path: catalogs_tree_path(catalogs_root, d.catalogs_descriptor),
    }
}

/// The mathematical content of a `Daemon`: both managers' views.
pub struct DaemonView {
    pub repository: RepositoryManagerView,
    pub pipes: PipeManagerView,
}

/// The daemon: the repository manager and the pipe manager behind one
/// surface.
pub struct Daemon {
    repository_manager: RepositoryManager,
    pipe_manager: PipeManager,
}

impl View for Daemon {
    type V = DaemonView;

    closed spec fn view(&self) -> DaemonView {
        DaemonView { repository: self.repository_manager@, pipes: self.pipe_manager@ }
    }
}

pub struct DaemonBuilder {
    pub repository_manager: Option<RepositoryManager>,
    pub pipe_manager: Option<PipeManager>,
}

impl DaemonBuilder {
    pub fn new() -> (r: Self)
        ensures
            r.repository_manager is None,
            r.pipe_manager is None,
    {
        DaemonBuilder { repository_manager: None, pipe_manager: None }
    }

    pub fn repository_manager(self, repository_manager: RepositoryManager) -> (r: Self)
        ensures
            r.repository_manager == Some(repository_manager),
            r.pipe_manager == self.pipe_manager,
    {
        DaemonBuilder { repository_manager: Some(repository_manager), ..self }
    }

    pub fn pipe_manager(self, pipe_manager: PipeManager) -> (r: Self)
        ensures
            r.pipe_manager == Some(pipe_manager),
            r.repository_manager == self.repository_manager,
    {
        DaemonBuilder { pipe_manager: Some(pipe_manager), ..self }
    }

    pub fn build(self) -> (r: Daemon)
        requires
            self.repository_manager is Some,
            self.pipe_manager is Some,
        ensures
            r@.repository == self.repository_manager->Some_0@,
            r@.pipes == self.pipe_manager->Some_0@,
    {
        Daemon {
            repository_manager: self.repository_manager.unwrap(),
            pipe_manager: self.pipe_manager.unwrap(),
        }
    }
}

impl Default for DaemonBuilder {
    fn default() -> (r: Self)
        ensures
            r.repository_manager is None,
            r.pipe_manager is None,
    {
        DaemonBuilder::new()
    }
}

/// The views of a vector of optional unit properties.
pub open spec fn props_views(s: Seq<Option<UnitProps>>) -> Seq<Option<UnitPropsView>> {
    s.map_values(
        |o: Option<UnitProps>|
            match o {
                Some(p) => Some(p@),
                None => None,
            },
    )
}

/// Whether `state` is the status-sweep result for the pipe `id` whose unit
/// reported the properties `p`.
pub open spec fn state_matches(state: PipeState, id: Seq<char>, p: UnitPropsView) -> bool {
    &&& state.id@ == id
    &&& state.load_state.is_state_for(p.load_state)
    &&& state.active_state.is_state_for(p.active_state)
    &&& state.sub_state.is_state_for(p.sub_state)
}

/// Whether `states` reports exactly the id/properties pairs in `entries`,
/// in order.
pub open spec fn states_match(
    states: Seq<PipeState>,
    entries: Seq<(Seq<char>, UnitPropsView)>,
) -> bool {
    &&& states.len() == entries.len()
    &&& forall|k: int|
        0 <= k < states.len() ==> state_matches(#[trigger] states[k], entries[k].0, entries[k].1)
}

/// The id/properties pairs that survive a status sweep: one pair per
/// register entry whose properties could be read, in register order.
pub open spec fn surviving_states(
    ids: Seq<Seq<char>>,
    props: Seq<Option<UnitPropsView>>,
) -> Seq<(Seq<char>, UnitPropsView)>
    recommends
        ids.len() == props.len(),
    decreases ids.len(),
{
    if ids.len() == 0 {
        Seq::empty()
    } else {
        let rest = surviving_states(ids.drop_last(), props.drop_last());
        match props.last() {
            Some(p) => rest.push((ids.last(), p)),
            None => rest,
        }
    }
}

impl Daemon {
    pub fn builder() -> (r: DaemonBuilder)
        ensures
            r.repository_manager is None,
            r.pipe_manager is None,
    {
        DaemonBuilder::default()
    }

    /// The app register contents, in register order.
    pub fn list_app_register(&self) -> (r: Vec<AppDescriptor>)
        ensures
            crate::repository::app_views(r@) == self@.repository.apps,
    {
        self.repository_manager.list_app_register()
    }

    /// The catalogs register contents, in register order.
    pub fn list_catalogs_register(&self) -> (r: Vec<CatalogsDescriptor>)
        ensures
            crate::repository::catalogs_views(r@) == self@.repository.catalogs,
    {
        self.repository_manager.list_catalogs_register()
    }

    /// Rules on a pull of an app, after the bytes were fetched.
    pub fn pull_app(&mut self, desc: &AppDescriptor) -> (r: PullOutcome)
        ensures
            final(self)@.pipes == old(self)@.pipes,
            final(self)@.repository == (RepositoryManagerView {
                apps: pull_transition(old(self)@.repository.apps, desc@),
                ..old(self)@.repository
            }),
            final(self)@.repository.apps.contains(desc@),
            old(self)@.repository.apps.contains(desc@) <==> r == PullOutcome::AlreadyRegistered,
            !old(self)@.repository.apps.contains(desc@) ==> (r matches PullOutcome::Registered {
                artifact_path,
            } && artifact_path@ == app_artifact_path(old(self)@.repository.app_directory, desc@)),
    {
        self.repository_manager.pull_app(desc)
    }

    /// Rules on a pull of a catalogs tree, after the archive was fetched.
    pub fn pull_catalogs(&mut self, desc: &CatalogsDescriptor) -> (r: PullOutcome)
        ensures
            final(self)@.pipes == old(self)@.pipes,
            final(self)@.repository == (RepositoryManagerView {
                catalogs: pull_transition(old(self)@.repository.catalogs, desc@),
                ..old(self)@.repository
            }),
            final(self)@.repository.catalogs.contains(desc@),
            old(self)@.repository.catalogs.contains(desc@) <==> r
                == PullOutcome::AlreadyRegistered,
            !old(self)@.repository.catalogs.contains(desc@) ==> (r
                matches PullOutcome::Registered { artifact_path } && artifact_path@
                == catalogs_tree_path(old(self)@.repository.catalogs_directory, desc@)),
    {
        self.repository_manager.pull_catalogs(desc)
    }

    /// Rules on removing an app from the repository.
    pub fn remove_app(&mut self, desc: &AppDescriptor) -> (r: RemoveOutcome)
        ensures
            final(self)@.pipes == old(self)@.pipes,
            final(self)@.repository == (RepositoryManagerView {
                apps: remove_transition(old(self)@.repository.apps, desc@),
                ..old(self)@.repository
            }),
            !old(self)@.repository.apps.contains(desc@) <==> r == RemoveOutcome::NotRegistered,
            old(self)@.repository.apps.contains(desc@) ==> (r matches RemoveOutcome::Removed {
                version_directory,
            } && version_directory@ == app_version_directory(
                old(self)@.repository.app_directory,
                desc@,
            )),
    {
        self.repository_manager.remove_app(desc)
    }

    /// Rules on removing a catalogs tree from the repository.
    pub fn remove_catalogs(&mut self, desc: &CatalogsDescriptor) -> (r: RemoveOutcome)
        ensures
            final(self)@.pipes == old(self)@.pipes,
            final(self)@.repository == (RepositoryManagerView {
                catalogs: remove_transition(old(self)@.repository.catalogs, desc@),
                ..old(self)@.repository
            }),
            !old(self)@.repository.catalogs.contains(desc@) <==> r
                == RemoveOutcome::NotRegistered,
            old(self)@.repository.catalogs.contains(desc@) ==> (r
                matches RemoveOutcome::Removed { version_directory } && version_directory@
                == catalogs_version_directory(old(self)@.repository.catalogs_directory, desc@)),
    {
        self.repository_manager.remove_catalogs(desc)
    }

    /// Rules on creating a pipe. Fails with `Resource` naming the missing
    /// kind when either artifact is not registered; otherwise resolves the
    /// artifact paths, applies the metadata defaults, and rules as the pipe
    /// manager does on the resolved descriptor.
    pub fn create_pipe(&mut self, desc: Descriptor, unit_exists: bool) -> (r: Result<
        CreateActions,
        Error,
    >)
        ensures
            final(self)@.repository == old(self)@.repository,
            final(self)@.pipes.workspace == old(self)@.pipes.workspace,
            !old(self)@.repository.apps.contains(desc@.app_descriptor) ==> {
                &&& final(self)@ == old(self)@
                &&& r matches Err(e) && e matches Error::Resource { resource, message }
                    && resource == ResourceType::App && message@ == "app "@
                    + desc@.app_descriptor.display() + " not found"@
            },
            old(self)@.repository.apps.contains(desc@.app_descriptor) && !old(
                self,
            )@.repository.catalogs.contains(desc@.catalogs_descriptor) ==> {
                &&& final(self)@ == old(self)@
                &&& r matches Err(e) && e matches Error::Resource { resource, message }
                    && resource == ResourceType::Catalogs && message@ == "catalogs "@
                    + desc@.catalogs_descriptor.display() + " not found"@
            },
            old(self)@.repository.apps.contains(desc@.app_descriptor) && old(
                self,
            )@.repository.catalogs.contains(desc@.catalogs_descriptor) ==> {
                let pd = resolved_pipe_descriptor(
                    desc@,
                    old(self)@.repository.app_directory,
                    old(self)@.repository.catalogs_directory,
                );
                &&& old(self)@.pipes.register.contains(desc@.id) ==> {
                    &&& final(self)@ == old(self)@
                    &&& r matches Err(e) && e matches Error::Pipe { operation, message }
                        && operation == PipeOperation::Create && message@
                        == "conflict pipe id '"@ + desc@.id + "'"@
                }
                &&& !old(self)@.pipes.register.contains(desc@.id) && unit_exists ==> {
                    &&& final(self)@ == old(self)@
                    &&& r matches Err(e) && e matches Error::Pipe { operation, message }
                        && operation == PipeOperation::Create && message@
                        == "invalid pipe unit name given id '"@ + desc@.id + "'"@
                }
                &&& !old(self)@.pipes.register.contains(desc@.id) && !unit_exists ==> {
                    &&& final(self)@.pipes.register == old(self)@.pipes.register.push(desc@.id)
                    &&& final(self)@.pipes.register.contains(desc@.id)
                    &&& r matches Ok(actions) && {
                        let wd = path_join(old(self)@.pipes.workspace, desc@.id);
                        &&& actions.working_directory@ == wd
                        &&& actions.catalogs_path@ == pd.catalogs_path
                        &&& actions.catalogs_link_path@ == path_join(wd, "catalogs"@)
                        &&& actions.user@ == pd.user
                        &&& actions.group@ == pd.group
                        &&& actions.unit_name@ == unit_name(desc@.id)
                        &&& actions.unit_file@ == unit_file_content(pd, wd)
                    }
                }
            },
    {
        let app_path = match self.repository_manager.check_app_registered(&desc.app_descriptor) {
            Some(path) => path,
            None => {
                let shown = desc.app_descriptor.display_string();
                let message = String::from_str("app ").concat(shown.as_str()).concat(" not found");
                return Err(resource_error(ResourceType::App, message));
            },
        };
        let catalogs_path = match self.repository_manager.check_catalogs_registered(
            &desc.catalogs_descriptor,
        ) {
            Some(path) => path,
            None => {
                let shown = desc.catalogs_descriptor.display_string();
                let message = String::from_str("catalogs ").concat(shown.as_str()).concat(
                    " not found",
                );
                return Err(resource_error(ResourceType::Catalogs, message));
            },
        };
        let ghost dv = desc@;
        let mut builder = PipeDescriptor::builder().id(desc.id).app_path(app_path).catalogs_path(
            catalogs_path,
        );
        builder = builder.envs(desc.envs);
        let builder = match desc.description {
            Some(description) => builder.description(description),
            None => builder,
        };
        let builder = match desc.user {
            Some(user) => builder.user(user),
            None => builder,
        };
        let builder = match desc.group {
            Some(group) => builder.group(group),
            None => builder,
        };
        let pipe_descriptor = builder.build();
        proof {
            assert(env_views(pipe_descriptor.envs@) =~= dv.envs);
            assert(pipe_descriptor@ == resolved_pipe_descriptor(
                dv,
                old(self)@.repository.app_directory,
                old(self)@.repository.catalogs_directory,
            ));
        }
        self.pipe_manager.create(&pipe_descriptor, unit_exists)
    }

    /// Rules on starting a pipe.
    pub fn start_pipe(&self, id: &str) -> (r: Result<UnitAction, Error>)
        ensures
            !self@.pipes.register.contains(id@) ==> (r matches Err(e) && e matches Error::Pipe {
                operation,
                message,
            } && operation == PipeOperation::Start && message@ == "pipe '"@ + id@
                + "' not registered"@),
            self@.pipes.register.contains(id@) ==> (r matches Ok(action) && action.unit_name@
                == unit_name(id@) && action.mode@ == "replace"@),
    {
        self.pipe_manager.start(id)
    }

    /// Rules on stopping a pipe.
    pub fn stop_pipe(&self, id: &str) -> (r: Result<UnitAction, Error>)
        ensures
            !self@.pipes.register.contains(id@) ==> (r matches Err(e) && e matches Error::Pipe {
                operation,
                message,
            } && operation == PipeOperation::Stop && message@ == "pipe '"@ + id@
                + "' not registered"@),
            self@.pipes.register.contains(id@) ==> (r matches Ok(action) && action.unit_name@
                == unit_name(id@) && action.mode@ == "replace"@),
    {
        self.pipe_manager.stop(id)
    }

    /// Rules on removing a pipe, given the observed unit properties.
    pub fn remove_pipe(&mut self, id: &str, props: &UnitProps) -> (r: Result<PipeRemoval, Error>)
        ensures
            final(self)@.repository == old(self)@.repository,
            final(self)@.pipes.workspace == old(self)@.pipes.workspace,
            !old(self)@.pipes.register.contains(id@) ==> final(self)@ == old(self)@ && r == Ok::<
                PipeRemoval,
                Error,
            >(PipeRemoval::NotRegistered),
            old(self)@.pipes.register.contains(id@) && props@.active_state != "inactive"@ ==> {
                &&& final(self)@ == old(self)@
                &&& r matches Err(e) && e matches Error::Pipe { operation, message }
                    && operation == PipeOperation::Remove && message@ == "pipe '"@ + id@
                    + "' is not inactive"@
            },
            old(self)@.pipes.register.contains(id@) && props@.active_state == "inactive"@
                && props@.sub_state != "dead"@ ==> {
                &&& final(self)@ == old(self)@
                &&& r matches Err(e) && e matches Error::Pipe { operation, message }
                    && operation == PipeOperation::Remove && message@ == "pipe '"@ + id@
                    + "' is not dead"@
            },
            old(self)@.pipes.register.contains(id@) && props@.active_state == "inactive"@
                && props@.sub_state == "dead"@ ==> {
                &&& final(self)@.pipes.register == swap_remove_first(
                    old(self)@.pipes.register,
                    id@,
                )
                &&& r matches Ok(removal) && removal matches PipeRemoval::Removed {
                    unit_name: u,
                } && u@ == unit_name(id@)
            },
    {
        self.pipe_manager.remove(id, props)
    }

    /// Rules on a status query, given the observed unit properties.
    pub fn pipe_status(&self, id: &str, props: &UnitProps) -> (r: Result<PipeState, Error>)
        ensures
            !self@.pipes.register.contains(id@) ==> (r matches Err(e) && e matches Error::Pipe {
                operation,
                message,
            } && operation == PipeOperation::Status && message@ == "pipe '"@ + id@
                + "' not registered"@),
            self@.pipes.register.contains(id@) ==> (r matches Ok(state) && {
                &&& state.id@ == id@
                &&& state.load_state.is_state_for(props@.load_state)
                &&& state.active_state.is_state_for(props@.active_state)
                &&& state.sub_state.is_state_for(props@.sub_state)
            }),
    {
        self.pipe_manager.status(id, props)
    }

    /// The pipe register contents, in register order.
    pub fn list_pipe_register(&self) -> (r: Vec<String>)
        ensures
            id_views(r@) == self@.pipes.register,
    {
        self.pipe_manager.list_pipe_register()
    }

    /// One state per register entry whose unit properties could be read
    /// (`props` is aligned with the register; a `None` entry is one whose
    /// unit could not be resolved, and is skipped rather than failing the
    /// sweep). States come in register order.
    pub fn list_pipe_status(&self, props: &Vec<Option<UnitProps>>) -> (r: Vec<PipeState>)
        requires
            props@.len() == self@.pipes.register.len(),
        ensures
            states_match(r@, surviving_states(self@.pipes.register, props_views(props@))),
    {
        let ids = self.pipe_manager.list_pipe_register();
        let ghost all_ids = self@.pipes.register;
        let ghost all_props = props_views(props@);
        let n = ids.len();
        let mut out: Vec<PipeState> = Vec::new();
        let mut i: usize = 0;
        while i < n
            invariant
                i <= n,
                n == ids@.len(),
                id_views(ids@) == all_ids,
                all_props == props_views(props@),
                props@.len() == n,
                all_props.len() == n,
                states_match(out@, surviving_states(all_ids.take(i as int), all_props.take(i as int))),
            decreases n - i,
        {
            let ghost prefix = surviving_states(all_ids.take(i as int), all_props.take(i as int));
            proof {
                assert(all_ids.take(i as int + 1).drop_last() =~= all_ids.take(i as int));
                assert(all_props.take(i as int + 1).drop_last() =~= all_props.take(i as int));
                assert(all_ids.take(i as int + 1).last() == all_ids[i as int]);
                assert(all_props.take(i as int + 1).last() == all_props[i as int]);
            }
            let ghost next = surviving_states(
                all_ids.take(i as int + 1),
                all_props.take(i as int + 1),
            );
            match &props[i] {
                Some(p) => {
                    let state = PipeState {
                        id: ids[i].clone(),
                        load_state: PipeLoadStateType::from_label(p.load_state.as_str()),
                        active_state: PipeActiveStateType::from_label(p.active_state.as_str()),
                        sub_state: PipeSubStateType::from_label(p.sub_state.as_str()),
                    };
                    let ghost kept = out@;
                    proof {
                        assert(all_props[i as int] == Some(p@));
                        assert(state.id@ == all_ids[i as int]);
                        assert(next == prefix.push((all_ids[i as int], p@)));
                    }
                    out.push(state);
                    proof {
                        assert(states_match(out@, next)) by {
                            assert forall|k: int| 0 <= k < out@.len() implies state_matches(
                                #[trigger] out@[k],
                                next[k].0,
                                next[k].1,
                            ) by {
                                if k < out@.len() - 1 {
                                    assert(out@[k] == kept[k]);
                                    assert(next[k] == prefix[k]);
                                    assert(state_matches(kept[k], prefix[k].0, prefix[k].1));
                                } else {
                                    assert(out@[k] == state);
                                    assert(next[k] == (all_ids[i as int], p@));
                                }
                            }
                        }
                    }
                },
                None => {
                    proof {
                        assert(all_props[i as int] is None);
                        assert(next == prefix);
                        assert(states_match(out@, next));
                    }
                },
            }
            i = i + 1;
        }
        proof {
            assert(all_ids.take(n as int) =~= all_ids);
            assert(all_props.take(n as int) =~= all_props);
        }
        out
    }
}

} // verus!

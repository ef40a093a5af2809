//! The pipe manager: lifecycle bookkeeping for long-running application
//! processes run as host service-manager units.
//!
//! The manager owns the in-memory image of the pipe register and rules on
//! every create, start, stop, status and remove. What the host service
//! manager reports or performs crosses the boundary as plain values: the
//! caller hands in what it observed (`UnitProps`, whether a unit of the name
//! already exists) and carries out the actions a decision names (install or
//! delete a unit file, issue a start or stop, create the working directory).

use vstd::prelude::*;
use crate::errors::{Error, PipeOperation, pipe_error};
use crate::path::{PathBuilder, path_join};
use crate::register::swap_remove_first;
use crate::text::str_equal;

verus! {

/// The three state labels the host service manager reports for one unit,
/// exactly as reported.
#[derive(Debug)]
pub struct UnitProps {
    pub load_state: String,
    pub active_state: String,
    pub sub_state: String,
}

/// The mathematical content of `UnitProps`.
pub struct UnitPropsView {
    pub load_state: Seq<char>,
    pub active_state: Seq<char>,
    pub sub_state: Seq<char>,
}

impl View for UnitProps {
    type V = UnitPropsView;

    open spec fn view(&self) -> UnitPropsView {
        UnitPropsView {
            load_state: self.load_state@,
            active_state: self.active_state@,
            sub_state: self.sub_state@,
        }
    }
}

/// The load state of a unit: the service manager's closed vocabulary, with
/// an escape for labels this library does not know.
#[derive(Debug)]
pub enum PipeLoadStateType {
    Stub,
    Loaded,
    NotFound,
    Error,
    Merged,
    Masked,
    Other(String),
}

impl PipeLoadStateType {
    /// The label this state renders to, bit-exact.
    pub open spec fn spec_label(&self) -> Seq<char> {
        match self {
            PipeLoadStateType::Stub => "stub"@,
            PipeLoadStateType::Loaded => "loaded"@,
            PipeLoadStateType::NotFound => "not-found"@,
            PipeLoadStateType::Error => "error"@,
            PipeLoadStateType::Merged => "merged"@,
            PipeLoadStateType::Masked => "masked"@,
            PipeLoadStateType::Other(other) => other@,
        }
    }

    /// Whether this state is the one that parsing `label` yields.
    pub open spec fn is_state_for(&self, label: Seq<char>) -> bool {
        match self {
            PipeLoadStateType::Stub => label == "stub"@,
            PipeLoadStateType::Loaded => label == "loaded"@,
            PipeLoadStateType::NotFound => label == "not-found"@,
            PipeLoadStateType::Error => label == "error"@,
            PipeLoadStateType::Merged => label == "merged"@,
            PipeLoadStateType::Masked => label == "masked"@,
            PipeLoadStateType::Other(other) => other@ == label && label != "stub"@ && label
                != "loaded"@ && label != "not-found"@ && label != "error"@ && label != "merged"@
                && label != "masked"@,
        }
    }

    /// Parses a reported label; an unknown label is kept verbatim.
    pub fn from_label(label: &str) -> (r: Self)
        ensures
            r.is_state_for(label@),
    {
        if str_equal(label, "stub") {
            PipeLoadStateType::Stub
        } else if str_equal(label, "loaded") {
            PipeLoadStateType::Loaded
        } else if str_equal(label, "not-found") {
            PipeLoadStateType::NotFound
        } else if str_equal(label, "error") {
            PipeLoadStateType::Error
        } else if str_equal(label, "merged") {
            PipeLoadStateType::Merged
        } else if str_equal(label, "masked") {
            PipeLoadStateType::Masked
        } else {
            PipeLoadStateType::Other(String::from_str(label))
        }
    }

    /// Renders the state back to its label.
    pub fn label(&self) -> (r: String)
        ensures
            r@ == self.spec_label(),
    {
        match self {
            PipeLoadStateType::Stub => String::from_str("stub"),
            PipeLoadStateType::Loaded => String::from_str("loaded"),
            PipeLoadStateType::NotFound => String::from_str("not-found"),
            PipeLoadStateType::Error => String::from_str("error"),
            PipeLoadStateType::Merged => String::from_str("merged"),
            PipeLoadStateType::Masked => String::from_str("masked"),
            PipeLoadStateType::Other(other) => other.clone(),
        }
    }
}

/// A parsed state renders back to the very label it was parsed from.
pub proof fn lemma_load_state_label_round_trip(state: PipeLoadStateType, label: Seq<char>)
    requires
        state.is_state_for(label),
    ensures
        state.spec_label() == label,
{
}

/// The active state of a unit.
#[derive(Debug)]
pub enum PipeActiveStateType {
    Active,
    Reloading,
    Inactive,
    Failed,
    Activating,
    Deactivating,
    Other(String),
}

impl PipeActiveStateType {
    /// The label this state renders to, bit-exact.
    pub open spec fn spec_label(&self) -> Seq<char> {
        match self {
            PipeActiveStateType::Active => "active"@,
            PipeActiveStateType::Reloading => "reloading"@,
            PipeActiveStateType::Inactive => "inactive"@,
            PipeActiveStateType::Failed => "failed"@,
            PipeActiveStateType::Activating => "activating"@,
            PipeActiveStateType::Deactivating => "deactivating"@,
            PipeActiveStateType::Other(other) => other@,
        }
    }

    /// Whether this state is the one that parsing `label` yields.
    pub open spec fn is_state_for(&self, label: Seq<char>) -> bool {
        match self {
            PipeActiveStateType::Active => label == "active"@,
            PipeActiveStateType::Reloading => label == "reloading"@,
            PipeActiveStateType::Inactive => label == "inactive"@,
            PipeActiveStateType::Failed => label == "failed"@,
            PipeActiveStateType::Activating => label == "activating"@,
            PipeActiveStateType::Deactivating => label == "deactivating"@,
            PipeActiveStateType::Other(other) => other@ == label && label != "active"@ && label
                != "reloading"@ && label != "inactive"@ && label != "failed"@ && label
                != "activating"@ && label != "deactivating"@,
        }
    }

    /// Parses a reported label; an unknown label is kept verbatim.
    pub fn from_label(label: &str) -> (r: Self)
        ensures
            r.is_state_for(label@),
    {
        if str_equal(label, "active") {
            PipeActiveStateType::Active
        } else if str_equal(label, "reloading") {
            PipeActiveStateType::Reloading
        } else if str_equal(label, "inactive") {
            PipeActiveStateType::Inactive
        } else if str_equal(label, "failed") {
            PipeActiveStateType::Failed
        } else if str_equal(label, "activating") {
            PipeActiveStateType::Activating
        } else if str_equal(label, "deactivating") {
            PipeActiveStateType::Deactivating
        } else {
            PipeActiveStateType::Other(String::from_str(label))
        }
    }

    /// Renders the state back to its label.
    pub fn label(&self) -> (r: String)
        ensures
            r@ == self.spec_label(),
    {
        match self {
            PipeActiveStateType::Active => String::from_str("active"),
            PipeActiveStateType::Reloading => String::from_str("reloading"),
            PipeActiveStateType::Inactive => String::from_str("inactive"),
            PipeActiveStateType::Failed => String::from_str("failed"),
            PipeActiveStateType::Activating => String::from_str("activating"),
            PipeActiveStateType::Deactivating => String::from_str("deactivating"),
            PipeActiveStateType::Other(other) => other.clone(),
        }
    }
}

/// A parsed state renders back to the very label it was parsed from.
pub proof fn lemma_active_state_label_round_trip(state: PipeActiveStateType, label: Seq<char>)
    requires
        state.is_state_for(label),
    ensures
        state.spec_label() == label,
{
}

/// The sub state of a unit.
#[derive(Debug)]
pub enum PipeSubStateType {
    AutoRestart,
    Dead,
    Exited,
    Failed,
    FinalSigterm,
    FinalSigkill,
    Reload,
    Running,
    Start,
    StartPre,
    StartPost,
    Stop,
    StopPost,
    StopSigabrt,
    StopSigterm,
    StopSigkill,
    Waiting,
    Other(String),
}

impl PipeSubStateType {
    /// The label this state renders to, bit-exact.
    pub open spec fn spec_label(&self) -> Seq<char> {
        match self {
            PipeSubStateType::AutoRestart => "auto-restart"@,
            PipeSubStateType::Dead => "dead"@,
            PipeSubStateType::Exited => "exited"@,
            PipeSubStateType::Failed => "failed"@,
            PipeSubStateType::FinalSigterm => "final-sigterm"@,
            PipeSubStateType::FinalSigkill => "final-sigkill"@,
            PipeSubStateType::Reload => "reload"@,
            PipeSubStateType::Running => "running"@,
            PipeSubStateType::Start => "start"@,
            PipeSubStateType::StartPre => "start-pre"@,
            PipeSubStateType::StartPost => "start-post"@,
            PipeSubStateType::Stop => "stop"@,
            PipeSubStateType::StopPost => "stop-post"@,
            PipeSubStateType::StopSigabrt => "stop-sigabrt"@,
            PipeSubStateType::StopSigterm => "stop-sigterm"@,
            PipeSubStateType::StopSigkill => "stop-sigkill"@,
            PipeSubStateType::Waiting => "waiting"@,
            PipeSubStateType::Other(other) => other@,
        }
    }

    /// Whether this state is the one that parsing `label` yields.
    pub open spec fn is_state_for(&self, label: Seq<char>) -> bool {
        match self {
            PipeSubStateType::AutoRestart => label == "auto-restart"@,
            PipeSubStateType::Dead => label == "dead"@,
            PipeSubStateType::Exited => label == "exited"@,
            PipeSubStateType::Failed => label == "failed"@,
            PipeSubStateType::FinalSigterm => label == "final-sigterm"@,
            PipeSubStateType::FinalSigkill => label == "final-sigkill"@,
            PipeSubStateType::Reload => label == "reload"@,
            PipeSubStateType::Running => label == "running"@,
            PipeSubStateType::Start => label == "start"@,
            PipeSubStateType::StartPre => label == "start-pre"@,
            PipeSubStateType::StartPost => label == "start-post"@,
            PipeSubStateType::Stop => label == "stop"@,
            PipeSubStateType::StopPost => label == "stop-post"@,
            PipeSubStateType::StopSigabrt => label == "stop-sigabrt"@,
            PipeSubStateType::StopSigterm => label == "stop-sigterm"@,
            PipeSubStateType::StopSigkill => label == "stop-sigkill"@,
            PipeSubStateType::Waiting => label == "waiting"@,
            PipeSubStateType::Other(other) => other@ == label && label != "auto-restart"@ && label
                != "dead"@ && label != "exited"@ && label != "failed"@ && label
                != "final-sigterm"@ && label != "final-sigkill"@ && label != "reload"@ && label
                != "running"@ && label != "start"@ && label != "start-pre"@ && label
                != "start-post"@ && label != "stop"@ && label != "stop-post"@ && label
                != "stop-sigabrt"@ && label != "stop-sigterm"@ && label != "stop-sigkill"@ && label
                != "waiting"@,
        }
    }

    /// Parses a reported label; an unknown label is kept verbatim.
    pub fn from_label(label: &str) -> (r: Self)
        ensures
            r.is_state_for(label@),
    {
        if str_equal(label, "auto-restart") {
            PipeSubStateType::AutoRestart
        } else if str_equal(label, "dead") {
            PipeSubStateType::Dead
        } else if str_equal(label, "exited") {
            PipeSubStateType::Exited
        } else if str_equal(label, "failed") {
            PipeSubStateType::Failed
        } else if str_equal(label, "final-sigterm") {
            PipeSubStateType::FinalSigterm
        } else if str_equal(label, "final-sigkill") {
            PipeSubStateType::FinalSigkill
        } else if str_equal(label, "reload") {
            PipeSubStateType::Reload
        } else if str_equal(label, "running") {
            PipeSubStateType::Running
        } else if str_equal(label, "start") {
            PipeSubStateType::Start
        } else if str_equal(label, "start-pre") {
            PipeSubStateType::StartPre
        } else if str_equal(label, "start-post") {
            PipeSubStateType::StartPost
        } else if str_equal(label, "stop") {
            PipeSubStateType::Stop
        } else if str_equal(label, "stop-post") {
            PipeSubStateType::StopPost
        } else if str_equal(label, "stop-sigabrt") {
            PipeSubStateType::StopSigabrt
        } else if str_equal(label, "stop-sigterm") {
            PipeSubStateType::StopSigterm
        } else if str_equal(label, "stop-sigkill") {
            PipeSubStateType::StopSigkill
        } else if str_equal(label, "waiting") {
            PipeSubStateType::Waiting
        } else {
            PipeSubStateType::Other(String::from_str(label))
        }
    }

    /// Renders the state back to its label.
    pub fn label(&self) -> (r: String)
        ensures
            r@ == self.spec_label(),
    {
        match self {
            PipeSubStateType::AutoRestart => String::from_str("auto-restart"),
            PipeSubStateType::Dead => String::from_str("dead"),
            PipeSubStateType::Exited => String::from_str("exited"),
            PipeSubStateType::Failed => String::from_str("failed"),
            PipeSubStateType::FinalSigterm => String::from_str("final-sigterm"),
            PipeSubStateType::FinalSigkill => String::from_str("final-sigkill"),
            PipeSubStateType::Reload => String::from_str("reload"),
            PipeSubStateType::Running => String::from_str("running"),
            PipeSubStateType::Start => String::from_str("start"),
            PipeSubStateType::StartPre => String::from_str("start-pre"),
            PipeSubStateType::StartPost => String::from_str("start-post"),
            PipeSubStateType::Stop => String::from_str("stop"),
            PipeSubStateType::StopPost => String::from_str("stop-post"),
            PipeSubStateType::StopSigabrt => String::from_str("stop-sigabrt"),
            PipeSubStateType::StopSigterm => String::from_str("stop-sigterm"),
            PipeSubStateType::StopSigkill => String::from_str("stop-sigkill"),
            PipeSubStateType::Waiting => String::from_str("waiting"),
            PipeSubStateType::Other(other) => other.clone(),
        }
    }
}

/// A parsed state renders back to the very label it was parsed from.
pub proof fn lemma_sub_state_label_round_trip(state: PipeSubStateType, label: Seq<char>)
    requires
        state.is_state_for(label),
    ensures
        state.spec_label() == label,
{
}

/// One pipe's observed state: its id plus the three state axes the host
/// service manager reported.
#[derive(Debug)]
pub struct PipeState {
    pub id: String,
    pub load_state: PipeLoadStateType,
    pub active_state: PipeActiveStateType,
    pub sub_state: PipeSubStateType,
}

impl PipeState {
    pub fn is_inactive(&self) -> (r: bool)
        ensures
            r == (self.active_state is Inactive),
    {
        match &self.active_state {
            PipeActiveStateType::Inactive => true,
            _ => false,
        }
    }

    pub fn is_dead(&self) -> (r: bool)
        ensures
            r == (self.sub_state is Dead),
    {
        match &self.sub_state {
            PipeSubStateType::Dead => true,
            _ => false,
        }
    }
}

/// One `Environment=` entry of a pipe's unit file.
#[derive(Debug)]
pub struct EnvironmentVariable {
    pub key: String,
    pub value: String,
}

/// The mathematical content of an `EnvironmentVariable`.
pub struct EnvironmentVariableView {
    pub key: Seq<char>,
    pub value: Seq<char>,
}

impl View for EnvironmentVariable {
    type V = EnvironmentVariableView;

    open spec fn view(&self) -> EnvironmentVariableView {
        EnvironmentVariableView { key: self.key@, value: self.value@ }
    }
}

impl Clone for EnvironmentVariable {
    fn clone(&self) -> (r: Self)
        ensures
            r == *self,
    {
        EnvironmentVariable { key: self.key.clone(), value: self.value.clone() }
    }
}

/// The views of an environment list.
pub open spec fn env_views(s: Seq<EnvironmentVariable>) -> Seq<EnvironmentVariableView> {
    s.map_values(|e: EnvironmentVariable| e@)
}

/// Everything needed to create one pipe: the id, unit metadata, environment
/// entries in insertion order, and the resolved artifact paths.
#[derive(Debug)]
pub struct PipeDescriptor {
    pub id: String,
    pub description: String,
    pub user: String,
    pub group: String,
    pub envs: Vec<EnvironmentVariable>,
    pub app_path: String,
    pub catalogs_path: String,
}

/// The mathematical content of a `PipeDescriptor`.
pub struct PipeDescriptorView {
    pub id: Seq<char>,
    pub description: Seq<char>,
    pub user: Seq<char>,
    pub group: Seq<char>,
    pub envs: Seq<EnvironmentVariableView>,
    pub app_path: Seq<char>,
    pub catalogs_path: Seq<char>,
}

impl View for PipeDescriptor {
    type V = PipeDescriptorView;

    open spec fn view(&self) -> PipeDescriptorView {
        PipeDescriptorView {
            id: self.id@,
            description: self.description@,
            user: self.user@,
            group: self.group@,
            envs: env_views(self.envs@),
            app_path: self.app_path@,
            catalogs_path: self.catalogs_path@,
        }
    }
}

impl PipeDescriptor {
    pub fn builder() -> (r: PipeDescriptorBuilder)
        ensures
            r.id is None,
            r.description@ == "a pipebase application"@,
            r.user@ == "pipebase"@,
            r.group@ == "pipebase"@,
            r.envs@ == Seq::<EnvironmentVariable>::empty(),
            r.app_path is None,
            r.catalogs_path is None,
    {
        PipeDescriptorBuilder::default()
    }
}

/// Builds a `PipeDescriptor`, with documented defaults for the unit
/// metadata: description `a pipebase application`, user and group
/// `pipebase`.
pub struct PipeDescriptorBuilder {
    pub id: Option<String>,
    pub description: String,
    pub user: String,
    pub group: String,
    pub envs: Vec<EnvironmentVariable>,
    pub app_path: Option<String>,
    pub catalogs_path: Option<String>,
}

impl Default for PipeDescriptorBuilder {
    fn default() -> (r: Self)
        ensures
            r.id is None,
            r.description@ == "a pipebase application"@,
            r.user@ == "pipebase"@,
            r.group@ == "pipebase"@,
            r.envs@ == Seq::<EnvironmentVariable>::empty(),
            r.app_path is None,
            r.catalogs_path is None,
    {
        let r = PipeDescriptorBuilder {
            id: None,
            description: String::from_str("a pipebase application"),
            user: String::from_str("pipebase"),
            group: String::from_str("pipebase"),
            envs: Vec::new(),
            app_path: None,
            catalogs_path: None,
        };
        proof {
            assert(r.envs@ =~= Seq::<EnvironmentVariable>::empty());
        }
        r
    }
}

impl PipeDescriptorBuilder {
    pub fn id(self, id: String) -> (r: Self)
        ensures
            r == (PipeDescriptorBuilder { id: Some(id), ..self }),
    {
        PipeDescriptorBuilder { id: Some(id), ..self }
    }

    pub fn description(self, description: String) -> (r: Self)
        ensures
            r == (PipeDescriptorBuilder { description, ..self }),
    {
        PipeDescriptorBuilder { description, ..self }
    }

    pub fn user(self, user: String) -> (r: Self)
        ensures
            r == (PipeDescriptorBuilder { user, ..self }),
    {
        PipeDescriptorBuilder { user, ..self }
    }

    pub fn group(self, group: String) -> (r: Self)
        ensures
            r == (PipeDescriptorBuilder { group, ..self }),
    {
        PipeDescriptorBuilder { group, ..self }
    }

    /// Appends one environment entry; duplicates are permitted and order is
    /// kept.
    pub fn env(self, env: EnvironmentVariable) -> (r: Self)
        ensures
            r.envs@ == self.envs@.push(env),
            r.id == self.id,
            r.description == self.description,
            r.user == self.user,
            r.group == self.group,
            r.app_path == self.app_path,
            r.catalogs_path == self.catalogs_path,
    {
        let mut envs = self.envs;
        envs.push(env);
        PipeDescriptorBuilder { envs, ..self }
    }

    /// Appends a whole environment list, keeping its order.
    pub fn envs(self, envs: Vec<EnvironmentVariable>) -> (r: Self)
        ensures
            r.envs@ == self.envs@ + envs@,
            r.id == self.id,
            r.description == self.description,
            r.user == self.user,
            r.group == self.group,
            r.app_path == self.app_path,
            r.catalogs_path == self.catalogs_path,
    {
        let mut held = self.envs;
        let mut incoming = envs;
        held.append(&mut incoming);
        PipeDescriptorBuilder { envs: held, ..self }
    }

    pub fn app_path(self, app_path: String) -> (r: Self)
        ensures
            r == (PipeDescriptorBuilder { app_path: Some(app_path), ..self }),
    {
        PipeDescriptorBuilder { app_path: Some(app_path), ..self }
    }

    pub fn catalogs_path(self, catalogs_path: String) -> (r: Self)
        ensures
            r == (PipeDescriptorBuilder { catalogs_path: Some(catalogs_path), ..self }),
    {
        PipeDescriptorBuilder { catalogs_path: Some(catalogs_path), ..self }
    }

    pub fn build(self) -> (r: PipeDescriptor)
        requires
            self.id is Some,
            self.app_path is Some,
            self.catalogs_path is Some,
        ensures
            r.id == self.id->Some_0,
            r.description == self.description,
            r.user == self.user,
            r.group == self.group,
            r.envs == self.envs,
            r.app_path == self.app_path->Some_0,
            r.catalogs_path == self.catalogs_path->Some_0,
    {
        let id = self.id.unwrap();
        let app_path = self.app_path.unwrap();
        let catalogs_path = self.catalogs_path.unwrap();
        PipeDescriptor {
            id,
            description: self.description,
            user: self.user,
            group: self.group,
            envs: self.envs,
            app_path,
            catalogs_path,
        }
    }
}

/// The service-manager unit name for a pipe id: `<id>.service`.
pub open spec fn unit_name(id: Seq<char>) -> Seq<char> {
    id + ".service"@
}

/// Builds a unit name from a pipe id.
pub struct PipeUnitNameBuilder<'a> {
    pub id: Option<&'a str>,
}

impl<'a> Default for PipeUnitNameBuilder<'a> {
    fn default() -> (r: Self)
        ensures
            r.id is None,
    {
        PipeUnitNameBuilder { id: None }
    }
}

impl<'a> PipeUnitNameBuilder<'a> {
    pub fn id(self, id: &'a str) -> (r: Self)
        ensures
            r.id == Some(id),
    {
        PipeUnitNameBuilder { id: Some(id) }
    }

    pub fn build(self) -> (r: String)
        requires
            self.id is Some,
        ensures
            r@ == unit_name(self.id->Some_0@),
    {
        let id = self.id.unwrap();
        String::from_str(id).concat(".service")
    }
}

/// The `Environment=` lines of a unit file, one per entry, in order.
pub open spec fn env_lines(envs: Seq<EnvironmentVariableView>) -> Seq<char>
    decreases envs.len(),
{
    if envs.len() == 0 {
        Seq::empty()
    } else {
        env_lines(envs.drop_last()) + "Environment="@ + envs.last().key + "="@ + envs.last().value
            + "\n"@
    }
}

/// The full text of a pipe's service unit file: the unit description, the
/// single-argument `ExecStart`, the working directory, user and group, then
/// one `Environment=` line per entry in insertion order.
pub open spec fn unit_file_content(d: PipeDescriptorView, working_directory: Seq<char>) -> Seq<
    char,
> {
    "[Unit]\nDescription="@ + d.description + "\n\n[Service]\nExecStart="@ + d.app_path
        + "\nWorkingDirectory="@ + working_directory + "\nUser="@ + d.user + "\nGroup="@ + d.group
        + "\n"@ + env_lines(d.envs)
}

/// Renders the service unit file for `desc`, run in `working_directory`.
pub fn render_unit_file(desc: &PipeDescriptor, working_directory: &str) -> (r: String)
    ensures
        r@ == unit_file_content(desc@, working_directory@),
{
    let mut s = String::from_str("[Unit]\nDescription=");
    s.append(desc.description.as_str());
    s.append("\n\n[Service]\nExecStart=");
    s.append(desc.app_path.as_str());
    s.append("\nWorkingDirectory=");
    s.append(working_directory);
    s.append("\nUser=");
    s.append(desc.user.as_str());
    s.append("\nGroup=");
    s.append(desc.group.as_str());
    s.append("\n");
    let ghost head = s@;
    proof {
        assert(head =~= "[Unit]\nDescription="@ + desc@.description
            + "\n\n[Service]\nExecStart="@ + desc@.app_path + "\nWorkingDirectory="@
            + working_directory@ + "\nUser="@ + desc@.user + "\nGroup="@ + desc@.group + "\n"@);
    }
    let n = desc.envs.len();
    let mut i: usize = 0;
    while i < n
        invariant
            i <= n,
            n == desc.envs@.len(),
            s@ == head + env_lines(env_views(desc.envs@).take(i as int)),
        decreases n - i,
    {
        s.append("Environment=");
        s.append(desc.envs[i].key.as_str());
        s.append("=");
        s.append(desc.envs[i].value.as_str());
        s.append("\n");
        proof {
            let evs = env_views(desc.envs@);
            assert(evs.take(i as int + 1).drop_last() =~= evs.take(i as int));
            assert(evs.take(i as int + 1).last() == evs[i as int]);
            assert(s@ =~= head + env_lines(evs.take(i as int + 1)));
        }
        i = i + 1;
    }
    proof {
        assert(env_views(desc.envs@).take(n as int) =~= env_views(desc.envs@));
        assert(s@ =~= unit_file_content(desc@, working_directory@));
    }
    s
}

/// The views of a pipe register.
pub open spec fn id_views(s: Seq<String>) -> Seq<Seq<char>> {
    s.map_values(|x: String| x@)
}

/// The workspace root of the pipe manager.
pub struct PipeManagerConfig {
    pub workspace: String,
}

/// The mathematical content of a `PipeManager`: its workspace root and the
/// pipe register.
pub struct PipeManagerView {
    pub workspace: Seq<char>,
    pub register: Seq<Seq<char>>,
}

/// The lifecycle engine. Owns the in-memory image of the pipe register and
/// rules on every lifecycle operation against it and against what the caller
/// observed of the host service manager.
pub struct PipeManager {
    workspace: String,
    register: Vec<String>,
}

/// Builds a pipe manager over the configured workspace, with an empty
/// register, as on a fresh daemon whose register file does not exist yet.
pub fn build_pipe_manager(config: PipeManagerConfig) -> (r: PipeManager)
    ensures
        r@.workspace == config.workspace@,
        r@.register == Seq::<Seq<char>>::empty(),
{
    let r = PipeManager { workspace: config.workspace, register: Vec::new() };
    proof {
        assert(r@.register =~= Seq::<Seq<char>>::empty());
    }
    r
}

impl View for PipeManager {
    type V = PipeManagerView;

    closed spec fn view(&self) -> PipeManagerView {
        PipeManagerView { workspace: self.workspace@, register: id_views(self.register@) }
    }
}

/// The index of the first register entry equal to `id`, or the register
/// length when there is none.
fn position_pipe(reg: &Vec<String>, id: &str) -> (r: usize)
    ensures
        r <= reg@.len(),
        forall|j: int| 0 <= j < r ==> id_views(reg@)[j] != id@,
        r < reg@.len() ==> id_views(reg@)[r as int] == id@,
        r == reg@.len() ==> !id_views(reg@).contains(id@),
{
    let n = reg.len();
    let mut i: usize = 0;
    while i < n
        invariant
            i <= n,
            n == reg@.len(),
            forall|j: int| 0 <= j < i ==> id_views(reg@)[j] != id@,
        decreases n - i,
    {
        if str_equal(reg[i].as_str(), id) {
            return i;
        }
        i = i + 1;
    }
    proof {
        if id_views(reg@).contains(id@) {
            let j = choose|j: int| 0 <= j < id_views(reg@).len() && id_views(reg@)[j] == id@;
            assert(id_views(reg@)[j] != id@);
        }
    }
    i
}

fn not_registered_message(id: &str) -> (r: String)
    ensures
        r@ == "pipe '"@ + id@ + "' not registered"@,
{
    String::from_str("pipe '").concat(id).concat("' not registered")
}

/// Everything the caller must carry out after a create was granted: make the
/// working directory, link the catalogs tree at `catalogs_path` to
/// `catalogs_link_path`, grant `user:group` ownership of the working
/// directory, and install the rendered unit file under the unit name.
#[derive(Debug)]
pub struct CreateActions {
    pub working_directory: String,
    pub catalogs_path: String,
    pub catalogs_link_path: String,
    pub user: String,
    pub group: String,
    pub unit_name: String,
    pub unit_file: String,
}

/// The start or stop call the caller must issue: the unit name and the
/// service-manager mode, always `replace`.
#[derive(Debug)]
pub struct UnitAction {
    pub unit_name: String,
    pub mode: String,
}

/// What a remove decided: either the id was not registered and nothing is to
/// be done, or it is now deregistered and the named unit file is to be
/// deleted.
#[derive(Debug)]
pub enum PipeRemoval {
    NotRegistered,
    Removed { unit_name: String },
}

impl PipeManager {
    /// Replaces the in-memory pipe register with the one read from disk; a
    /// missing register file is handed in as an empty vector.
    pub fn load_pipe_register(&mut self, ids: Vec<String>)
        ensures
            final(self)@ == (PipeManagerView { register: id_views(ids@), ..old(self)@ }),
    {
        self.register = ids;
    }

    /// Rules on creating a pipe. Refused as a `Create` conflict when the id
    /// is already registered, or when the host service manager already knows
    /// a unit of that name (`unit_exists` is what the caller observed).
    /// Otherwise the id is appended to the register and the returned actions
    /// say what to set up.
    pub fn create(&mut self, desc: &PipeDescriptor, unit_exists: bool) -> (r: Result<
        CreateActions,
        Error,
    >)
        ensures
            final(self)@.workspace == old(self)@.workspace,
            old(self)@.register.contains(desc@.id) ==> {
                &&& final(self)@ == old(self)@
                &&& r matches Err(e) && e matches Error::Pipe { operation, message }
                    && operation == PipeOperation::Create && message@ == "conflict pipe id '"@
                    + desc@.id + "'"@
            },
            !old(self)@.register.contains(desc@.id) && unit_exists ==> {
                &&& final(self)@ == old(self)@
                &&& r matches Err(e) && e matches Error::Pipe { operation, message }
                    && operation == PipeOperation::Create && message@
                    == "invalid pipe unit name given id '"@ + desc@.id + "'"@
            },
            !old(self)@.register.contains(desc@.id) && !unit_exists ==> {
                &&& final(self)@.register == old(self)@.register.push(desc@.id)
                &&& final(self)@.register.contains(desc@.id)
                &&& r matches Ok(actions) && {
                    let wd = path_join(old(self)@.workspace, desc@.id);
                    &&& actions.working_directory@ == wd
                    &&& actions.catalogs_path@ == desc@.catalogs_path
                    &&& actions.catalogs_link_path@ == path_join(wd, "catalogs"@)
                    &&& actions.user@ == desc@.user
                    &&& actions.group@ == desc@.group
                    &&& actions.unit_name@ == unit_name(desc@.id)
                    &&& actions.unit_file@ == unit_file_content(desc@, wd)
                }
            },
    {
        let i = position_pipe(&self.register, desc.id.as_str());
        if i < self.register.len() {
            let message = String::from_str("conflict pipe id '").concat(desc.id.as_str()).concat(
                "'",
            );
            return Err(pipe_error(PipeOperation::Create, message));
        }
        if unit_exists {
            let message = String::from_str("invalid pipe unit name given id '").concat(
                desc.id.as_str(),
            ).concat("'");
            return Err(pipe_error(PipeOperation::Create, message));
        }
        let working_directory = PathBuilder::clone_from(self.workspace.as_str()).push(
            desc.id.as_str(),
        ).build();
        let catalogs_link_path = PathBuilder::clone_from(working_directory.as_str()).push(
            "catalogs",
        ).build();
        let unit_name = PipeUnitNameBuilder::default().id(desc.id.as_str()).build();
        let unit_file = render_unit_file(desc, working_directory.as_str());
        self.register.push(String::from_str(desc.id.as_str()));
        proof {
            assert(id_views(self.register@) =~= old(self)@.register.push(desc@.id));
            assert(id_views(self.register@)[old(self)@.register.len() as int] == desc@.id);
        }
        Ok(
            CreateActions {
                working_directory,
                catalogs_path: desc.catalogs_path.clone(),
                catalogs_link_path,
                user: desc.user.clone(),
                group: desc.group.clone(),
                unit_name,
                unit_file,
            },
        )
    }

    /// Rules on starting a pipe: refused as `Start` when the id is not
    /// registered, else the caller is to issue the returned start call.
    pub fn start(&self, id: &str) -> (r: Result<UnitAction, Error>)
        ensures
            !self@.register.contains(id@) ==> (r matches Err(e) && e matches Error::Pipe {
                operation,
                message,
            } && operation == PipeOperation::Start && message@ == "pipe '"@ + id@
                + "' not registered"@),
            self@.register.contains(id@) ==> (r matches Ok(action) && action.unit_name@
                == unit_name(id@) && action.mode@ == "replace"@),
    {
        let i = position_pipe(&self.register, id);
        if i == self.register.len() {
            let message = not_registered_message(id);
            return Err(pipe_error(PipeOperation::Start, message));
        }
        let unit_name = PipeUnitNameBuilder::default().id(id).build();
        Ok(UnitAction { unit_name, mode: String::from_str("replace") })
    }

    /// Rules on stopping a pipe: refused as `Stop` when the id is not
    /// registered, else the caller is to issue the returned stop call.
    pub fn stop(&self, id: &str) -> (r: Result<UnitAction, Error>)
        ensures
            !self@.register.contains(id@) ==> (r matches Err(e) && e matches Error::Pipe {
                operation,
                message,
            } && operation == PipeOperation::Stop && message@ == "pipe '"@ + id@
                + "' not registered"@),
            self@.register.contains(id@) ==> (r matches Ok(action) && action.unit_name@
                == unit_name(id@) && action.mode@ == "replace"@),
    {
        let i = position_pipe(&self.register, id);
        if i == self.register.len() {
            let message = not_registered_message(id);
            return Err(pipe_error(PipeOperation::Stop, message));
        }
        let unit_name = PipeUnitNameBuilder::default().id(id).build();
        Ok(UnitAction { unit_name, mode: String::from_str("replace") })
    }

    /// Rules on a status query: refused as `Status` when the id is not
    /// registered, else maps the properties the caller read from the host
    /// service manager into the three-axis pipe state.
    pub fn status(&self, id: &str, props: &UnitProps) -> (r: Result<PipeState, Error>)
        ensures
            !self@.register.contains(id@) ==> (r matches Err(e) && e matches Error::Pipe {
                operation,
                message,
            } && operation == PipeOperation::Status && message@ == "pipe '"@ + id@
                + "' not registered"@),
            self@.register.contains(id@) ==> (r matches Ok(state) && {
                &&& state.id@ == id@
                &&& state.load_state.is_state_for(props@.load_state)
                &&& state.active_state.is_state_for(props@.active_state)
                &&& state.sub_state.is_state_for(props@.sub_state)
            }),
    {
        let i = position_pipe(&self.register, id);
        if i == self.register.len() {
            let message = not_registered_message(id);
            return Err(pipe_error(PipeOperation::Status, message));
        }
        Ok(
            PipeState {
                id: String::from_str(id),
                load_state: PipeLoadStateType::from_label(props.load_state.as_str()),
                active_state: PipeActiveStateType::from_label(props.active_state.as_str()),
                sub_state: PipeSubStateType::from_label(props.sub_state.as_str()),
            },
        )
    }

    /// Rules on removing a pipe: a no-op when the id is not registered;
    /// refused as `Remove` while the observed state is not inactive or not
    /// dead; otherwise the id is swap-removed from the register and the
    /// caller is to delete the returned unit file.
    pub fn remove(&mut self, id: &str, props: &UnitProps) -> (r: Result<PipeRemoval, Error>)
        ensures
            final(self)@.workspace == old(self)@.workspace,
            !old(self)@.register.contains(id@) ==> final(self)@ == old(self)@ && r == Ok::<
                PipeRemoval,
                Error,
            >(PipeRemoval::NotRegistered),
            old(self)@.register.contains(id@) && props@.active_state != "inactive"@ ==> {
                &&& final(self)@ == old(self)@
                &&& r matches Err(e) && e matches Error::Pipe { operation, message }
                    && operation == PipeOperation::Remove && message@ == "pipe '"@ + id@
                    + "' is not inactive"@
            },
            old(self)@.register.contains(id@) && props@.active_state == "inactive"@
                && props@.sub_state != "dead"@ ==> {
                &&& final(self)@ == old(self)@
                &&& r matches Err(e) && e matches Error::Pipe { operation, message }
                    && operation == PipeOperation::Remove && message@ == "pipe '"@ + id@
                    + "' is not dead"@
            },
            old(self)@.register.contains(id@) && props@.active_state == "inactive"@
                && props@.sub_state == "dead"@ ==> {
                &&& final(self)@.register == swap_remove_first(old(self)@.register, id@)
                &&& r matches Ok(removal) && removal matches PipeRemoval::Removed { unit_name: u }
                    && u@ == unit_name(id@)
            },
    {
        let i = position_pipe(&self.register, id);
        if i == self.register.len() {
            return Ok(PipeRemoval::NotRegistered);
        }
        if !str_equal(props.active_state.as_str(), "inactive") {
            let message = String::from_str("pipe '").concat(id).concat("' is not inactive");
            return Err(pipe_error(PipeOperation::Remove, message));
        }
        if !str_equal(props.sub_state.as_str(), "dead") {
            let message = String::from_str("pipe '").concat(id).concat("' is not dead");
            return Err(pipe_error(PipeOperation::Remove, message));
        }
        let unit = PipeUnitNameBuilder::default().id(id).build();
        self.register.swap_remove(i);
        proof {
            let vs = old(self)@.register;
            assert(vs.contains(id@));
            vs.index_of_first_ensures(id@);
            let fi = vs.index_of_first(id@)->Some_0;
            assert(vs[i as int] == id@);
            assert(fi == i as int);
            assert(id_views(self.register@) =~= swap_remove_first(vs, id@));
        }
        Ok(PipeRemoval::Removed { unit_name: unit })
    }

    /// The pipe register contents, in register order.
    pub fn list_pipe_register(&self) -> (r: Vec<String>)
        ensures
            id_views(r@) == self@.register,
    {
        let mut out: Vec<String> = Vec::new();
        let n = self.register.len();
        let mut i: usize = 0;
        while i < n
            invariant
                i <= n,
                n == self.register@.len(),
                id_views(out@) =~= id_views(self.register@).take(i as int),
            decreases n - i,
        {
            let ghost prev = out@;
            let id = self.register[i].clone();
            proof {
                assert(id@ == id_views(self.register@)[i as int]);
            }
            out.push(id);
            proof {
                assert(id_views(out@) =~= id_views(prev).push(id@));
                assert(id_views(out@) =~= id_views(self.register@).take(i as int + 1));
            }
            i = i + 1;
        }
        proof {
            assert(id_views(out@) =~= self@.register);
        }
        out
    }
}

/// The pipe lifecycle is monotone: on a duplicate-free register without
/// `id`, a create registers the id (so start, stop and status are then owed
/// success and every listing includes the id), and a remove in the
/// inactive-and-dead state takes the register back to exactly what it was,
/// after which the id is no longer registered.
pub proof fn lemma_pipe_lifecycle(register: Seq<Seq<char>>, id: Seq<char>)
    requires
        register.no_duplicates(),
        !register.contains(id),
    ensures
        ({
            let created = register.push(id);
            &&& created.contains(id)
            &&& created.no_duplicates()
            &&& swap_remove_first(created, id) == register
            &&& !swap_remove_first(created, id).contains(id)
        }),
{
    crate::register::lemma_pull_idempotent(register, id);
    crate::register::lemma_pull_then_remove(register, id);
    assert(crate::register::pull_transition(register, id) == register.push(id));
    assert(crate::register::remove_transition(register.push(id), id) == swap_remove_first(
        register.push(id),
        id,
    ));
}

} // verus!

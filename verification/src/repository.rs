//! The repository manager: an on-disk store of versioned app binaries and
//! catalogs trees, each root with an authoritative register.
//!
//! The manager itself is the decision core: it owns the in-memory image of
//! the two registers, rules on every pull, remove and lookup, and names the
//! on-disk paths that the outcome concerns. The surrounding process performs
//! the filesystem work (fetching bytes, saving, deleting) and persists the
//! registers, taking the corresponding advisory lock around each operation.

use vstd::prelude::*;
use crate::path::{PathBuilder, path_join};
use crate::register::{pull_transition, remove_transition, swap_remove_first};
use crate::text::{format_u64, u64_decimal};

verus! {

/// The mathematical content of an `AppDescriptor`.
pub struct AppDescriptorView {
    pub namespace: Seq<char>,
    pub id: Seq<char>,
    pub version: u64,
}

/// Addresses one app binary: `(namespace, id, version)`.
#[derive(Debug)]
pub struct AppDescriptor {
    pub namespace: String,
    pub id: String,
    pub version: u64,
}

impl View for AppDescriptor {
    type V = AppDescriptorView;

    open spec fn view(&self) -> AppDescriptorView {
        AppDescriptorView { namespace: self.namespace@, id: self.id@, version: self.version }
    }
}

impl PartialEq for AppDescriptor {
    fn eq(&self, other: &AppDescriptor) -> (r: bool) {
        self.namespace == other.namespace && self.id == other.id && self.version
            == other.version
    }
}

impl vstd::std_specs::cmp::PartialEqSpecImpl for AppDescriptor {
    open spec fn obeys_eq_spec() -> bool {
        true
    }

    open spec fn eq_spec(&self, other: &AppDescriptor) -> bool {
        self@ == other@
    }
}

impl Clone for AppDescriptor {
    fn clone(&self) -> (r: Self)
        ensures
            r == *self,
    {
        AppDescriptor {
            namespace: self.namespace.clone(),
            id: self.id.clone(),
            version: self.version,
        }
    }
}

impl AppDescriptorView {
    /// The textual rendering `(namespace = N, id = I, version = V)`.
    pub open spec fn display(self) -> Seq<char> {
        "(namespace = "@ + self.namespace + ", id = "@ + self.id + ", version = "@
            + u64_decimal(self.version as nat) + ")"@
    }
}

impl AppDescriptor {
    pub fn builder() -> (r: AppDescriptorBuilder)
        ensures
            r.namespace is None,
            r.id is None,
            r.version is None,
    {
        AppDescriptorBuilder::default()
    }

    /// Renders the descriptor as `(namespace = N, id = I, version = V)`.
    pub fn display_string(&self) -> (r: String)
        ensures
            r@ == self@.display(),
    {
        let mut s = String::from_str("(namespace = ");
        s.append(self.namespace.as_str());
        s.append(", id = ");
        s.append(self.id.as_str());
        s.append(", version = ");
        let version = format_u64(self.version);
        s.append(version.as_str());
        s.append(")");
        proof {
            assert(s@ =~= self@.display());
        }
        s
    }
}

pub struct AppDescriptorBuilder {
    pub namespace: Option<String>,
    pub id: Option<String>,
    pub version: Option<u64>,
}

impl AppDescriptorBuilder {
    pub fn new() -> (r: Self)
        ensures
            r.namespace is None,
            r.id is None,
            r.version is None,
    {
        AppDescriptorBuilder { namespace: None, id: None, version: None }
    }

    pub fn namespace(self, namespace: String) -> (r: Self)
        ensures
            r.namespace == Some(namespace),
            r.id == self.id,
            r.version == self.version,
    {
        AppDescriptorBuilder { namespace: Some(namespace), ..self }
    }

    pub fn id(self, id: String) -> (r: Self)
        ensures
            r.id == Some(id),
            r.namespace == self.namespace,
            r.version == self.version,
    {
        AppDescriptorBuilder { id: Some(id), ..self }
    }

    pub fn version(self, version: u64) -> (r: Self)
        ensures
            r.version == Some(version),
            r.namespace == self.namespace,
            r.id == self.id,
    {
        AppDescriptorBuilder { version: Some(version), ..self }
    }

    pub fn build(self) -> (r: AppDescriptor)
        requires
            self.namespace is Some,
            self.id is Some,
            self.version is Some,
        ensures
            r.namespace == self.namespace->Some_0,
            r.id == self.id->Some_0,
            r.version == self.version->Some_0,
    {
        let namespace = self.namespace.unwrap();
        let id = self.id.unwrap();
        let version = self.version.unwrap();
        AppDescriptor { namespace, id, version }
    }
}

impl Default for AppDescriptorBuilder {
    fn default() -> (r: Self)
        ensures
            r.namespace is None,
            r.id is None,
            r.version is None,
    {
        AppDescriptorBuilder::new()
    }
}

/// The mathematical content of a `CatalogsDescriptor`.
pub struct CatalogsDescriptorView {
    pub namespace: Seq<char>,
    pub id: Seq<char>,
    pub version: u64,
}

/// Addresses one catalogs tree: `(namespace, id, version)`.
#[derive(Debug)]
pub struct CatalogsDescriptor {
    pub namespace: String,
    pub id: String,
    pub version: u64,
}

impl View for CatalogsDescriptor {
    type V = CatalogsDescriptorView;

    open spec fn view(&self) -> CatalogsDescriptorView {
        CatalogsDescriptorView { namespace: self.namespace@, id: self.id@, version: self.version }
    }
}

impl PartialEq for CatalogsDescriptor {
    fn eq(&self, other: &CatalogsDescriptor) -> (r: bool) {
        self.namespace == other.namespace && self.id == other.id && self.version
            == other.version
    }
}

impl vstd::std_specs::cmp::PartialEqSpecImpl for CatalogsDescriptor {
    open spec fn obeys_eq_spec() -> bool {
        true
    }

    open spec fn eq_spec(&self, other: &CatalogsDescriptor) -> bool {
        self@ == other@
    }
}

impl Clone for CatalogsDescriptor {
    fn clone(&self) -> (r: Self)
        ensures
            r == *self,
    {
        CatalogsDescriptor {
            namespace: self.namespace.clone(),
            id: self.id.clone(),
            version: self.version,
        }
    }
}

impl CatalogsDescriptorView {
    /// The textual rendering `(namespace = N, id = I, version = V)`.
    pub open spec fn display(self) -> Seq<char> {
        "(namespace = "@ + self.namespace + ", id = "@ + self.id + ", version = "@
            + u64_decimal(self.version as nat) + ")"@
    }
}

impl CatalogsDescriptor {
    pub fn builder() -> (r: CatalogsDescriptorBuilder)
        ensures
            r.namespace is None,
            r.id is None,
            r.version is None,
    {
        CatalogsDescriptorBuilder::default()
    }

    /// Renders the descriptor as `(namespace = N, id = I, version = V)`.
    pub fn display_string(&self) -> (r: String)
        ensures
            r@ == self@.display(),
    {
        let mut s = String::from_str("(namespace = ");
        s.append(self.namespace.as_str());
        s.append(", id = ");
        s.append(self.id.as_str());
        s.append(", version = ");
        let version = format_u64(self.version);
        s.append(version.as_str());
        s.append(")");
        proof {
            assert(s@ =~= self@.display());
        }
        s
    }
}

pub struct CatalogsDescriptorBuilder {
    pub namespace: Option<String>,
    pub id: Option<String>,
    pub version: Option<u64>,
}

impl CatalogsDescriptorBuilder {
    pub fn new() -> (r: Self)
        ensures
            r.namespace is None,
            r.id is None,
            r.version is None,
    {
        CatalogsDescriptorBuilder { namespace: None, id: None, version: None }
    }

    pub fn namespace(self, namespace: String) -> (r: Self)
        ensures
            r.namespace == Some(namespace),
            r.id == self.id,
            r.version == self.version,
    {
        CatalogsDescriptorBuilder { namespace: Some(namespace), ..self }
    }

    pub fn id(self, id: String) -> (r: Self)
        ensures
            r.id == Some(id),
            r.namespace == self.namespace,
            r.version == self.version,
    {
        CatalogsDescriptorBuilder { id: Some(id), ..self }
    }

    pub fn version(self, version: u64) -> (r: Self)
        ensures
            r.version == Some(version),
            r.namespace == self.namespace,
            r.id == self.id,
    {
        CatalogsDescriptorBuilder { version: Some(version), ..self }
    }

    pub fn build(self) -> (r: CatalogsDescriptor)
        requires
            self.namespace is Some,
            self.id is Some,
            self.version is Some,
        ensures
            r.namespace == self.namespace->Some_0,
            r.id == self.id->Some_0,
            r.version == self.version->Some_0,
    {
        let namespace = self.namespace.unwrap();
        let id = self.id.unwrap();
        let version = self.version.unwrap();
        CatalogsDescriptor { namespace, id, version }
    }
}

impl Default for CatalogsDescriptorBuilder {
    fn default() -> (r: Self)
        ensures
            r.namespace is None,
            r.id is None,
            r.version is None,
    {
        CatalogsDescriptorBuilder::new()
    }
}

/// The views of a register of app descriptors.
pub open spec fn app_views(s: Seq<AppDescriptor>) -> Seq<AppDescriptorView> {
    s.map_values(|d: AppDescriptor| d@)
}

/// The views of a register of catalogs descriptors.
pub open spec fn catalogs_views(s: Seq<CatalogsDescriptor>) -> Seq<CatalogsDescriptorView> {
    s.map_values(|d: CatalogsDescriptor| d@)
}

/// The directory holding one app version: `<root>/<ns>/<id>/<version>`.
pub open spec fn app_version_directory(root: Seq<char>, d: AppDescriptorView) -> Seq<char> {
    path_join(path_join(path_join(root, d.namespace), d.id), u64_decimal(d.version as nat))
}

/// The canonical path of one app binary: `<root>/<ns>/<id>/<version>/app`.
pub open spec fn app_artifact_path(root: Seq<char>, d: AppDescriptorView) -> Seq<char> {
    path_join(app_version_directory(root, d), "app"@)
}

/// The directory holding one catalogs version: `<root>/<ns>/<id>/<version>`.
pub open spec fn catalogs_version_directory(root: Seq<char>, d: CatalogsDescriptorView) -> Seq<
    char,
> {
    path_join(path_join(path_join(root, d.namespace), d.id), u64_decimal(d.version as nat))
}

/// The canonical path of one catalogs tree: `<root>/<ns>/<id>/<version>/catalogs`.
pub open spec fn catalogs_tree_path(root: Seq<char>, d: CatalogsDescriptorView) -> Seq<char> {
    path_join(catalogs_version_directory(root, d), "catalogs"@)
}

/// What a pull decided, once the fetched bytes are in hand: either the
/// descriptor was already registered and nothing is to be saved, or it is now
/// registered and the artifact is to be saved at the named path.
pub enum PullOutcome {
    AlreadyRegistered,
    Registered { artifact_path: String },
}

/// What a remove decided: either the descriptor was not registered and
/// nothing is to be deleted, or it is now deregistered and the named version
/// directory is to be deleted recursively.
pub enum RemoveOutcome {
    NotRegistered,
    Removed { version_directory: String },
}

/// The mathematical content of a `RepositoryManager`: the two root
/// directories and the two registers.
pub struct RepositoryManagerView {
    pub app_directory: Seq<char>,
    pub catalogs_directory: Seq<char>,
    pub apps: Seq<AppDescriptorView>,
    pub catalogs: Seq<CatalogsDescriptorView>,
}

/// The artifact store. Decides pulls, removes and lookups against the
/// in-memory image of the registers, and names the paths under its two
/// roots that each decision concerns.
pub struct RepositoryManager {
    app_directory: String,
    catalogs_directory: String,
    app_register: Vec<AppDescriptor>,
    catalogs_register: Vec<CatalogsDescriptor>,
}

pub struct RepositoryManagerBuilder {
    pub app_directory: Option<String>,
    pub catalogs_directory: Option<String>,
}

impl RepositoryManagerBuilder {
    pub fn new() -> (r: Self)
        ensures
            r.app_directory is None,
            r.catalogs_directory is None,
    {
        RepositoryManagerBuilder { app_directory: None, catalogs_directory: None }
    }

    pub fn app_directory(self, app_directory: String) -> (r: Self)
        ensures
            r.app_directory == Some(app_directory),
            r.catalogs_directory == self.catalogs_directory,
    {
        RepositoryManagerBuilder { app_directory: Some(app_directory), ..self }
    }

    pub fn catalogs_directory(self, catalogs_directory: String) -> (r: Self)
        ensures
            r.catalogs_directory == Some(catalogs_directory),
            r.app_directory == self.app_directory,
    {
        RepositoryManagerBuilder { catalogs_directory: Some(catalogs_directory), ..self }
    }

    /// Builds a manager over the two roots, with both registers empty, as on
    /// a fresh daemon whose register files do not exist yet.
    pub fn build(self) -> (r: RepositoryManager)
        requires
            self.app_directory is Some,
            self.catalogs_directory is Some,
        ensures
            r@.app_directory == self.app_directory->Some_0@,
            r@.catalogs_directory == self.catalogs_directory->Some_0@,
            r@.apps == Seq::<AppDescriptorView>::empty(),
            r@.catalogs == Seq::<CatalogsDescriptorView>::empty(),
    {
        let r = RepositoryManager {
            app_directory: self.app_directory.unwrap(),
            catalogs_directory: self.catalogs_directory.unwrap(),
            app_register: Vec::new(),
            catalogs_register: Vec::new(),
        };
        proof {
            assert(r@.apps =~= Seq::<AppDescriptorView>::empty());
            assert(r@.catalogs =~= Seq::<CatalogsDescriptorView>::empty());
        }
        r
    }
}

impl Default for RepositoryManagerBuilder {
    fn default() -> (r: Self)
        ensures
            r.app_directory is None,
            r.catalogs_directory is None,
    {
        RepositoryManagerBuilder::new()
    }
}

impl View for RepositoryManager {
    type V = RepositoryManagerView;

    closed spec fn view(&self) -> RepositoryManagerView {
        RepositoryManagerView {
            app_directory: self.app_directory@,
            catalogs_directory: self.catalogs_directory@,
            apps: app_views(self.app_register@),
            catalogs: catalogs_views(self.catalogs_register@),
        }
    }
}

/// The index of the first register entry equal to `desc`, or the register
/// length when there is none.
fn position_app(reg: &Vec<AppDescriptor>, desc: &AppDescriptor) -> (r: usize)
    ensures
        r <= reg@.len(),
        forall|j: int| 0 <= j < r ==> app_views(reg@)[j] != desc@,
        r < reg@.len() ==> app_views(reg@)[r as int] == desc@,
        r == reg@.len() ==> !app_views(reg@).contains(desc@),
{
    let n = reg.len();
    let mut i: usize = 0;
    while i < n
        invariant
            i <= n,
            n == reg@.len(),
            forall|j: int| 0 <= j < i ==> app_views(reg@)[j] != desc@,
        decreases n - i,
    {
        if reg[i] == *desc {
            return i;
        }
        i = i + 1;
    }
    proof {
        if app_views(reg@).contains(desc@) {
            let j = choose|j: int|
                0 <= j < app_views(reg@).len() && app_views(reg@)[j] == desc@;
            assert(app_views(reg@)[j] != desc@);
        }
    }
    i
}

/// The index of the first register entry equal to `desc`, or the register
/// length when there is none.
fn position_catalogs(reg: &Vec<CatalogsDescriptor>, desc: &CatalogsDescriptor) -> (r: usize)
    ensures
        r <= reg@.len(),
        forall|j: int| 0 <= j < r ==> catalogs_views(reg@)[j] != desc@,
        r < reg@.len() ==> catalogs_views(reg@)[r as int] == desc@,
        r == reg@.len() ==> !catalogs_views(reg@).contains(desc@),
{
    let n = reg.len();
    let mut i: usize = 0;
    while i < n
        invariant
            i <= n,
            n == reg@.len(),
            forall|j: int| 0 <= j < i ==> catalogs_views(reg@)[j] != desc@,
        decreases n - i,
    {
        if reg[i] == *desc {
            return i;
        }
        i = i + 1;
    }
    proof {
        if catalogs_views(reg@).contains(desc@) {
            let j = choose|j: int|
                0 <= j < catalogs_views(reg@).len() && catalogs_views(reg@)[j] == desc@;
            assert(catalogs_views(reg@)[j] != desc@);
        }
    }
    i
}

impl RepositoryManager {
    pub fn builder() -> (r: RepositoryManagerBuilder)
        ensures
            r.app_directory is None,
            r.catalogs_directory is None,
    {
        RepositoryManagerBuilder::default()
    }

    /// Replaces the in-memory app register with the one read from disk; a
    /// missing register file is handed in as an empty vector.
    pub fn load_app_register(&mut self, descs: Vec<AppDescriptor>)
        ensures
            final(self)@ == (RepositoryManagerView { apps: app_views(descs@), ..old(self)@ }),
    {
        self.app_register = descs;
    }

    /// Replaces the in-memory catalogs register with the one read from disk;
    /// a missing register file is handed in as an empty vector.
    pub fn load_catalogs_register(&mut self, descs: Vec<CatalogsDescriptor>)
        ensures
            final(self)@ == (RepositoryManagerView {
                catalogs: catalogs_views(descs@),
                ..old(self)@
            }),
    {
        self.catalogs_register = descs;
    }

    fn app_artifact_path_of(&self, desc: &AppDescriptor) -> (r: String)
        ensures
            r@ == app_artifact_path(self@.app_directory, desc@),
    {
        let version = format_u64(desc.version);
        PathBuilder::clone_from(self.app_directory.as_str()).push(desc.namespace.as_str()).push(
            desc.id.as_str(),
        ).push(version.as_str()).push("app").build()
    }

    fn app_version_directory_of(&self, desc: &AppDescriptor) -> (r: String)
        ensures
            r@ == app_version_directory(self@.app_directory, desc@),
    {
        let version = format_u64(desc.version);
        PathBuilder::clone_from(self.app_directory.as_str()).push(desc.namespace.as_str()).push(
            desc.id.as_str(),
        ).push(version.as_str()).build()
    }

    fn catalogs_tree_path_of(&self, desc: &CatalogsDescriptor) -> (r: String)
        ensures
            r@ == catalogs_tree_path(self@.catalogs_directory, desc@),
    {
        let version = format_u64(desc.version);
        PathBuilder::clone_from(self.catalogs_directory.as_str()).push(
            desc.namespace.as_str(),
        ).push(desc.id.as_str()).push(version.as_str()).push("catalogs").build()
    }

    fn catalogs_version_directory_of(&self, desc: &CatalogsDescriptor) -> (r: String)
        ensures
            r@ == catalogs_version_directory(self@.catalogs_directory, desc@),
    {
        let version = format_u64(desc.version);
        PathBuilder::clone_from(self.catalogs_directory.as_str()).push(
            desc.namespace.as_str(),
        ).push(desc.id.as_str()).push(version.as_str()).build()
    }

    /// Rules on a pull of `desc`, after the bytes were fetched: a no-op when
    /// the descriptor is already registered (the register is authoritative,
    /// whatever is on disk), else the descriptor is appended to the register
    /// and the binary is to be saved at the returned path.
    pub fn pull_app(&mut self, desc: &AppDescriptor) -> (r: PullOutcome)
        ensures
            final(self)@ == (RepositoryManagerView {
                apps: pull_transition(old(self)@.apps, desc@),
                ..old(self)@
            }),
            final(self)@.apps.contains(desc@),
            old(self)@.apps.contains(desc@) <==> r == PullOutcome::AlreadyRegistered,
            !old(self)@.apps.contains(desc@) ==> (r matches PullOutcome::Registered {
                artifact_path,
            } && artifact_path@ == app_artifact_path(old(self)@.app_directory, desc@)),
    {
        let i = position_app(&self.app_register, desc);
        if i < self.app_register.len() {
            proof {
                assert(old(self)@.apps.contains(desc@));
                assert(final(self)@ =~= (RepositoryManagerView {
                    apps: pull_transition(old(self)@.apps, desc@),
                    ..old(self)@
                }));
            }
            PullOutcome::AlreadyRegistered
        } else {
            let artifact_path = self.app_artifact_path_of(desc);
            self.app_register.push(desc.clone());
            proof {
                assert(app_views(self.app_register@) =~= pull_transition(
                    old(self)@.apps,
                    desc@,
                ));
                assert(app_views(self.app_register@)[old(self)@.apps.len() as int] == desc@);
                assert(final(self)@ =~= (RepositoryManagerView {
                    apps: pull_transition(old(self)@.apps, desc@),
                    ..old(self)@
                }));
            }
            PullOutcome::Registered { artifact_path }
        }
    }

    /// Rules on a pull of `desc`, after the catalogs archive was fetched: a
    /// no-op when already registered, else the descriptor is appended and
    /// the tree is to be expanded at the returned path.
    pub fn pull_catalogs(&mut self, desc: &CatalogsDescriptor) -> (r: PullOutcome)
        ensures
            final(self)@ == (RepositoryManagerView {
                catalogs: pull_transition(old(self)@.catalogs, desc@),
                ..old(self)@
            }),
            final(self)@.catalogs.contains(desc@),
            old(self)@.catalogs.contains(desc@) <==> r == PullOutcome::AlreadyRegistered,
            !old(self)@.catalogs.contains(desc@) ==> (r matches PullOutcome::Registered {
                artifact_path,
            } && artifact_path@ == catalogs_tree_path(old(self)@.catalogs_directory, desc@)),
    {
        let i = position_catalogs(&self.catalogs_register, desc);
        if i < self.catalogs_register.len() {
            proof {
                assert(old(self)@.catalogs.contains(desc@));
                assert(final(self)@ =~= (RepositoryManagerView {
                    catalogs: pull_transition(old(self)@.catalogs, desc@),
                    ..old(self)@
                }));
            }
            PullOutcome::AlreadyRegistered
        } else {
            let artifact_path = self.catalogs_tree_path_of(desc);
            self.catalogs_register.push(desc.clone());
            proof {
                assert(catalogs_views(self.catalogs_register@) =~= pull_transition(
                    old(self)@.catalogs,
                    desc@,
                ));
                assert(catalogs_views(self.catalogs_register@)[old(self)@.catalogs.len() as int]
                    == desc@);
                assert(final(self)@ =~= (RepositoryManagerView {
                    catalogs: pull_transition(old(self)@.catalogs, desc@),
                    ..old(self)@
                }));
            }
            PullOutcome::Registered { artifact_path }
        }
    }

    /// Rules on a remove of `desc`: a no-op when the descriptor is not
    /// registered, else its first register entry is swap-removed and the
    /// returned version directory is to be deleted recursively.
    pub fn remove_app(&mut self, desc: &AppDescriptor) -> (r: RemoveOutcome)
        ensures
            final(self)@ == (RepositoryManagerView {
                apps: remove_transition(old(self)@.apps, desc@),
                ..old(self)@
            }),
            !old(self)@.apps.contains(desc@) <==> r == RemoveOutcome::NotRegistered,
            old(self)@.apps.contains(desc@) ==> (r matches RemoveOutcome::Removed {
                version_directory,
            } && version_directory@ == app_version_directory(old(self)@.app_directory, desc@)),
    {
        let i = position_app(&self.app_register, desc);
        if i == self.app_register.len() {
            proof {
                assert(final(self)@ =~= (RepositoryManagerView {
                    apps: remove_transition(old(self)@.apps, desc@),
                    ..old(self)@
                }));
            }
            RemoveOutcome::NotRegistered
        } else {
            let version_directory = self.app_version_directory_of(desc);
            self.app_register.swap_remove(i);
            proof {
                let vs = old(self)@.apps;
                assert(vs.contains(desc@));
                vs.index_of_first_ensures(desc@);
                let fi = vs.index_of_first(desc@)->Some_0;
                assert(vs[i as int] == desc@);
                assert(fi == i as int);
                assert(app_views(self.app_register@) =~= swap_remove_first(vs, desc@));
                assert(final(self)@ =~= (RepositoryManagerView {
                    apps: remove_transition(old(self)@.apps, desc@),
                    ..old(self)@
                }));
            }
            RemoveOutcome::Removed { version_directory }
        }
    }

    /// Rules on a remove of `desc`: a no-op when the descriptor is not
    /// registered, else its first register entry is swap-removed and the
    /// returned version directory is to be deleted recursively.
    pub fn remove_catalogs(&mut self, desc: &CatalogsDescriptor) -> (r: RemoveOutcome)
        ensures
            final(self)@ == (RepositoryManagerView {
                catalogs: remove_transition(old(self)@.catalogs, desc@),
                ..old(self)@
            }),
            !old(self)@.catalogs.contains(desc@) <==> r == RemoveOutcome::NotRegistered,
            old(self)@.catalogs.contains(desc@) ==> (r matches RemoveOutcome::Removed {
                version_directory,
            } && version_directory@ == catalogs_version_directory(
                old(self)@.catalogs_directory,
                desc@,
            )),
    {
        let i = position_catalogs(&self.catalogs_register, desc);
        if i == self.catalogs_register.len() {
            proof {
                assert(final(self)@ =~= (RepositoryManagerView {
                    catalogs: remove_transition(old(self)@.catalogs, desc@),
                    ..old(self)@
                }));
            }
            RemoveOutcome::NotRegistered
        } else {
            let version_directory = self.catalogs_version_directory_of(desc);
            self.catalogs_register.swap_remove(i);
            proof {
                let vs = old(self)@.catalogs;
                assert(vs.contains(desc@));
                vs.index_of_first_ensures(desc@);
                let fi = vs.index_of_first(desc@)->Some_0;
                assert(vs[i as int] == desc@);
                assert(fi == i as int);
                assert(catalogs_views(self.catalogs_register@) =~= swap_remove_first(vs, desc@));
                assert(final(self)@ =~= (RepositoryManagerView {
                    catalogs: remove_transition(old(self)@.catalogs, desc@),
                    ..old(self)@
                }));
            }
            RemoveOutcome::Removed { version_directory }
        }
    }

    /// Looks `desc` up in the app register: the canonical artifact path when
    /// registered, none otherwise. The register alone decides; whether the
    /// path exists on disk does not enter (a disagreement is only warned
    /// about, by the caller that can see the disk).
    pub fn check_app_registered(&self, desc: &AppDescriptor) -> (r: Option<String>)
        ensures
            self@.apps.contains(desc@) <==> r is Some,
            r matches Some(p) ==> p@ == app_artifact_path(self@.app_directory, desc@),
    {
        let i = position_app(&self.app_register, desc);
        if i < self.app_register.len() {
            Some(self.app_artifact_path_of(desc))
        } else {
            None
        }
    }

    /// Looks `desc` up in the catalogs register: the canonical tree path
    /// when registered, none otherwise.
    pub fn check_catalogs_registered(&self, desc: &CatalogsDescriptor) -> (r: Option<String>)
        ensures
            self@.catalogs.contains(desc@) <==> r is Some,
            r matches Some(p) ==> p@ == catalogs_tree_path(self@.catalogs_directory, desc@),
    {
        let i = position_catalogs(&self.catalogs_register, desc);
        if i < self.catalogs_register.len() {
            Some(self.catalogs_tree_path_of(desc))
        } else {
            None
        }
    }

    /// The app register contents, in register order.
    pub fn list_app_register(&self) -> (r: Vec<AppDescriptor>)
        ensures
            app_views(r@) == self@.apps,
    {
        let mut out: Vec<AppDescriptor> = Vec::new();
        let n = self.app_register.len();
        let mut i: usize = 0;
        while i < n
            invariant
                i <= n,
                n == self.app_register@.len(),
                app_views(out@) =~= app_views(self.app_register@).take(i as int),
            decreases n - i,
        {
            let ghost prev = out@;
            let d = self.app_register[i].clone();
            proof {
                assert(d@ == app_views(self.app_register@)[i as int]);
            }
            out.push(d);
            proof {
                assert(app_views(out@) =~= app_views(prev).push(d@));
                assert(app_views(out@) =~= app_views(self.app_register@).take(i as int + 1));
            }
            i = i + 1;
        }
        proof {
            assert(app_views(out@) =~= self@.apps);
        }
        out
    }

    /// The catalogs register contents, in register order.
    pub fn list_catalogs_register(&self) -> (r: Vec<CatalogsDescriptor>)
        ensures
            catalogs_views(r@) == self@.catalogs,
    {
        let mut out: Vec<CatalogsDescriptor> = Vec::new();
        let n = self.catalogs_register.len();
        let mut i: usize = 0;
        while i < n
            invariant
                i <= n,
                n == self.catalogs_register@.len(),
                catalogs_views(out@) =~= catalogs_views(self.catalogs_register@).take(i as int),
            decreases n - i,
        {
            let ghost prev = out@;
            let d = self.catalogs_register[i].clone();
            proof {
                assert(d@ == catalogs_views(self.catalogs_register@)[i as int]);
            }
            out.push(d);
            proof {
                assert(catalogs_views(out@) =~= catalogs_views(prev).push(d@));
                assert(catalogs_views(out@) =~= catalogs_views(self.catalogs_register@).take(
                    i as int + 1,
                ));
            }
            i = i + 1;
        }
        proof {
            assert(catalogs_views(out@) =~= self@.catalogs);
        }
        out
    }
}

} // verus!

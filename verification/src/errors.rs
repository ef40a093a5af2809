//! The error taxonomy of the daemon core.
//!
//! Every fallible operation of the library reports one of these kinds.
//! `Pipe` errors carry the lifecycle operation that was refused; `Resource`
//! errors carry which artifact kind a pull or a lookup was about.

use vstd::prelude::*;

verus! {

/// A pipe lifecycle operation, named in `Pipe` errors.
#[derive(Clone, Copy, Debug, PartialEq, Eq, Structural)]
pub enum PipeOperation {
    Create,
    Deregister,
    Register,
    Start,
    Status,
    Stop,
    Remove,
}

impl PipeOperation {
    /// The name this operation renders to in diagnostics.
    pub open spec fn spec_label(&self) -> Seq<char> {
        match self {
            PipeOperation::Create => "create"@,
            PipeOperation::Deregister => "deregister"@,
            PipeOperation::Register => "register"@,
            PipeOperation::Start => "start"@,
            PipeOperation::Status => "status"@,
            PipeOperation::Stop => "stop"@,
            PipeOperation::Remove => "remove"@,
        }
    }

    /// Renders the operation name.
    pub fn label(&self) -> (r: String)
        ensures
            r@ == self.spec_label(),
    {
        match self {
            PipeOperation::Create => String::from_str("create"),
            PipeOperation::Deregister => String::from_str("deregister"),
            PipeOperation::Register => String::from_str("register"),
            PipeOperation::Start => String::from_str("start"),
            PipeOperation::Status => String::from_str("status"),
            PipeOperation::Stop => String::from_str("stop"),
            PipeOperation::Remove => String::from_str("remove"),
        }
    }
}

/// An artifact kind held by the repository.
#[derive(Clone, Copy, Debug, PartialEq, Eq, Structural)]
pub enum ResourceType {
    App,
    Catalogs,
}

impl ResourceType {
    /// The name this kind renders to in diagnostics.
    pub open spec fn spec_label(&self) -> Seq<char> {
        match self {
            ResourceType::App => "app"@,
            ResourceType::Catalogs => "catalogs"@,
        }
    }

    /// Renders the kind name.
    pub fn label(&self) -> (r: String)
        ensures
            r@ == self.spec_label(),
    {
        match self {
            ResourceType::App => String::from_str("app"),
            ResourceType::Catalogs => String::from_str("catalogs"),
        }
    }
}

/// What can go wrong in the daemon core or at its edges.
#[derive(Debug)]
#[allow(inconsistent_fields)]
pub enum Error {
    /// A `chmod` shell-out failed.
    Chmod { permission: String, path: String, message: String },
    /// A `chown` shell-out failed.
    Chown { user: String, group: String, path: String, message: String },
    /// A filesystem operation failed.
    Io { message: String },
    /// An `ln` shell-out failed.
    Link { from: String, to: String, message: String },
    /// A path could not be used where UTF-8 text is required.
    Path { operation: String, message: String },
    /// A pipe lifecycle precondition was violated.
    Pipe { operation: PipeOperation, message: String },
    /// The builder service failed while pulling an artifact, or an artifact
    /// referenced by a pipe is not registered.
    Resource { resource: ResourceType, message: String },
    /// The host service manager refused a call.
    ServiceManager { message: String },
    /// A register or configuration file could not be (de)serialized.
    Yaml { message: String },
}

impl Error {
    /// Whether the error is the caller's fault — a missing artifact, an
    /// unknown pipe id, a failed lifecycle precondition, or a bad path —
    /// rather than an unexpected failure of the host or the store. The RPC
    /// surface reports the former as an invalid argument and the latter as
    /// internal.
    pub fn is_user_fault(&self) -> (r: bool)
        ensures
            r == (self is Pipe || self is Resource || self is Path),
    {
        match self {
            Error::Pipe { .. } => true,
            Error::Resource { .. } => true,
            Error::Path { .. } => true,
            _ => false,
        }
    }
}

pub fn link_error(from: String, to: String, message: String) -> (r: Error)
    ensures
        r == (Error::Link { from, to, message }),
{
    Error::Link { from, to, message }
}

pub fn chown_error(user: String, group: String, path: String, message: String) -> (r: Error)
    ensures
        r == (Error::Chown { user, group, path, message }),
{
    Error::Chown { user, group, path, message }
}

pub fn chmod_error(permission: String, path: String, message: String) -> (r: Error)
    ensures
        r == (Error::Chmod { permission, path, message }),
{
    Error::Chmod { permission, path, message }
}

pub fn path_error(operation: String, message: String) -> (r: Error)
    ensures
        r == (Error::Path { operation, message }),
{
    Error::Path { operation, message }
}

pub fn pipe_error(operation: PipeOperation, message: String) -> (r: Error)
    ensures
        r == (Error::Pipe { operation, message }),
{
    Error::Pipe { operation, message }
}

pub fn resource_error(resource: ResourceType, message: String) -> (r: Error)
    ensures
        r == (Error::Resource { resource, message }),
{
    Error::Resource { resource, message }
}

pub fn io_error(message: String) -> (r: Error)
    ensures
        r == (Error::Io { message }),
{
    Error::Io { message }
}

pub fn yaml_error(message: String) -> (r: Error)
    ensures
        r == (Error::Yaml { message }),
{
    Error::Yaml { message }
}

pub fn service_manager_error(message: String) -> (r: Error)
    ensures
        r == (Error::ServiceManager { message }),
{
    Error::ServiceManager { message }
}

} // verus!

//! A per-node pipe daemon core: a lock-serialized artifact repository, a
//! pipe lifecycle manager over the host service manager, and the daemon
//! facade that composes the two.

mod daemon;
mod errors;
mod ident;
mod path;
mod pipe;
mod register;
mod report;
mod repository;
mod rpc;
mod text;

pub use daemon::Daemon;
pub use daemon::DaemonBuilder;
pub use daemon::DaemonView;
pub use daemon::Descriptor;
pub use daemon::DescriptorBuilder;
pub use daemon::DescriptorView;
pub use daemon::props_views;
pub use daemon::resolved_pipe_descriptor;
pub use daemon::state_matches;
pub use daemon::states_match;
pub use daemon::surviving_states;
pub use errors::Error;
pub use errors::PipeOperation;
pub use errors::ResourceType;
pub use errors::chmod_error;
pub use errors::chown_error;
pub use errors::io_error;
pub use errors::link_error;
pub use errors::path_error;
pub use errors::pipe_error;
pub use errors::resource_error;
pub use errors::service_manager_error;
pub use errors::yaml_error;
pub use ident::generate_random_id;
pub use ident::id_charset;
pub use path::PathBuilder;
pub use path::path_join;
pub use pipe::CreateActions;
pub use pipe::EnvironmentVariable;
pub use pipe::EnvironmentVariableView;
pub use pipe::PipeActiveStateType;
pub use pipe::PipeDescriptor;
pub use pipe::PipeDescriptorBuilder;
pub use pipe::PipeDescriptorView;
pub use pipe::PipeLoadStateType;
pub use pipe::PipeManager;
pub use pipe::PipeManagerConfig;
pub use pipe::PipeManagerView;
pub use pipe::PipeRemoval;
pub use pipe::PipeState;
pub use pipe::PipeSubStateType;
pub use pipe::PipeUnitNameBuilder;
pub use pipe::UnitAction;
pub use pipe::UnitProps;
pub use pipe::UnitPropsView;
pub use pipe::build_pipe_manager;
pub use pipe::env_lines;
pub use pipe::env_views;
pub use pipe::id_views;
pub use pipe::lemma_active_state_label_round_trip;
pub use pipe::lemma_load_state_label_round_trip;
pub use pipe::lemma_pipe_lifecycle;
pub use pipe::lemma_sub_state_label_round_trip;
pub use pipe::render_unit_file;
pub use pipe::unit_file_content;
pub use pipe::unit_name;
pub use register::lemma_pull_idempotent;
pub use report::PrintRecords;
pub use report::column_width;
pub use report::descriptor_header;
pub use report::descriptor_row;
pub use report::padded;
pub use report::pipe_header;
pub use report::pipe_row;
pub use report::spaces;
pub use register::lemma_pull_then_remove;
pub use register::lemma_swap_remove_first_drops;
pub use register::lemma_swap_remove_last_entry;
pub use register::occurrences;
pub use register::pull_transition;
pub use register::remove_transition;
pub use register::swap_remove_first;
pub use repository::AppDescriptor;
pub use repository::AppDescriptorBuilder;
pub use repository::AppDescriptorView;
pub use repository::CatalogsDescriptor;
pub use repository::CatalogsDescriptorBuilder;
pub use repository::CatalogsDescriptorView;
pub use repository::PullOutcome;
pub use repository::RemoveOutcome;
pub use repository::RepositoryManager;
pub use repository::RepositoryManagerBuilder;
pub use repository::RepositoryManagerView;
pub use repository::app_artifact_path;
pub use repository::app_version_directory;
pub use repository::app_views;
pub use repository::catalogs_tree_path;
pub use repository::catalogs_version_directory;
pub use repository::catalogs_views;
pub use rpc::DaemonClientBuilder;
pub use rpc::RpcClientConfig;
pub use rpc::RpcProtocolType;
pub use rpc::endpoint_of;
pub use text::decimal_digit;
pub use text::format_u64;
pub use text::str_equal;
pub use text::u64_decimal;

//! Project-folder helper library: slug-named project directories and
//! archiving of files and directories into sibling `archive` folders.
//!
//! Paths are handled as plain `/`-separated strings, already in the
//! normalized form that `main` obtains by canonicalizing its argument
//! (no trailing slash, no repeated slashes).

pub mod archive;
pub mod cli;
pub mod fsops;
pub mod paths;
pub mod slugs;

pub use archive::archive_append_stdin_with;
pub use archive::archive_move_dir_with;
pub use archive::archive_move_file_with;
pub use archive::ArchiveError;
pub use fsops::FileOps;
pub use fsops::FsError;
pub use fsops::MockFileOps;
pub use cli::choose_archive_action;
pub use cli::name_for_dir;
pub use cli::parse_dash;
pub use cli::resolve_title;
pub use cli::strip_date_prefix;
pub use cli::ArchiveAction;
pub use cli::TargetKind;
pub use cli::TitleError;
pub use slugs::project_dir_for_title;
pub use slugs::slugify_title;
pub use paths::archive_dir_for_file_pure;
pub use paths::archive_dir_for_dir_pure;
pub use paths::path_join;
pub use paths::path_parent;
pub use paths::base_name_of;

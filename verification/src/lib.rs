//! Decision logic of the automatic uploader: what to send to an OpenList
//! server, how upload records evolve, and the state machines that drive
//! a directory upload, a single-file upload with retries, the file walk and
//! the pruning of emptied directories.

pub mod text;
pub mod config;
pub mod error;
pub mod openlist;
pub mod remote;
pub mod upload_record;
pub mod record_writes;
pub mod single_file;
pub mod directory;
pub mod file_walk;
pub mod prune;
pub mod upload_records;
pub mod schema;
pub mod path_order;
pub mod file_name;

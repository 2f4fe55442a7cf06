pub mod join_handle;

pub use join_handle::JoinHandle;

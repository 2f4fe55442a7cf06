pub mod stream;
pub mod task;
pub mod time;

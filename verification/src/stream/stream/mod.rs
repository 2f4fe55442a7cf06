pub mod any;
pub mod merge;
pub mod timeout;

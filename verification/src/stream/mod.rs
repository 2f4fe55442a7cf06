pub mod interval;
pub mod stream;

pub use interval::{interval, Interval};

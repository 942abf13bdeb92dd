//! Random passwords drawn from a configurable character pool.

pub mod display;
pub mod faulty;
pub mod options;
pub mod password;
pub mod pool;
pub mod sampling;
pub mod strength;
pub mod text;

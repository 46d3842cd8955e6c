//! A benchmarking harness for wavelet-tree representations of symbol
//! sequences: warm-up-aware timing, a build-or-load cache, a cross-variant
//! rank checker and a construction benchmark driver.

pub mod alphabet;
pub mod artifact;
pub mod cache;
mod clock;
pub mod consistency;
pub mod driver;
pub mod timing;
pub mod variants;

pub use timing::TimingQueries;

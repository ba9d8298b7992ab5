//! Emulation of packed (SIMD-style) integer arithmetic on a 64-bit register.
//!
//! One 64-bit value can be viewed as 1 x 64-bit, 2 x 32-bit, 4 x 16-bit or
//! 8 x 8-bit unsigned lanes; arithmetic is applied independently per lane.
//! Lane order is fixed throughout: lane `i` of a width-`W` view occupies
//! bits `[W * i, W * (i + 1))` of the register, so lane 0 is the least
//! significant lane.

pub mod calculations;
pub mod laws;
pub mod types;
pub mod utils;

//! Conversion of coordinates between three geodetic systems: the open
//! satellite system (WGS-84), the regionally offset system (GCJ-02) and the
//! vendor system (BD-09) built on top of it.
//!
//! The library holds the decisions of a conversion: which chain of
//! transforms leads from one system to another, and when the fixed-point
//! inversion of the regional offset stops. The arithmetic of each transform
//! is applied by the caller.
pub mod solver;
pub mod system;

pub use solver::{next_action, SolverAction, MAX_ROUNDS};
pub use system::{GeodeticSystem, Transform};

//! Vehicle control core for remotely operated cars, tanks and drones.
//!
//! Command axes are fixed-point integers: `FULL_SCALE` stands for full
//! deflection (1.0), so an axis normally lies in `[-FULL_SCALE, FULL_SCALE]`.
//! Everything here is exact integer arithmetic; conversion from and to the
//! floating-point wire representation happens at the application edge.
use vstd::prelude::*;

pub mod message;
pub mod vehicle;
pub mod pwm;
pub mod truck;
pub mod drone;
pub mod string;
pub mod transport;

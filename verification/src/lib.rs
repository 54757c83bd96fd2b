//! Simulation core of an endless lane-runner: road tiles that spawn cars on
//! repeating timers, cars that cross the road and expire, and a player who
//! steps between lanes.
//!
//! All lengths are fixed-point integers, `UNIT` steps to one world unit, and all
//! times are whole nanoseconds, so that a speed in units per second times a
//! time in nanoseconds is a length without rounding.

pub mod car;
pub mod laws;
pub mod player;
pub mod setup;
pub mod tile;
pub mod timer;
pub mod traffic;
pub mod units;
pub mod world;
